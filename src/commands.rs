//! The commands of the `dfx` tool that the monitor runs, with the arguments
//! each one takes and how its output is turned into text.
use vstd::prelude::*;
use crate::text::{chars_of, replace_all, replace_every, string_of};

verus! {

/// A `dfx` command.
#[derive(Debug, Clone, Copy, PartialEq, Eq, Structural)]
pub enum DfxCommands {
    /// Get the cycle balance of the selected identity's cycles wallet.
    CyclesBalance,
    /// Show the textual principal of the current identity.
    IdentityGetPrincipal,
    /// Get the wallet canister id of the identity on a network.
    IdentityGetWallet,
    /// List the existing identities.
    IdentityList,
    /// Show the name of the current identity.
    IdentityWhoami,
    /// Show the path of the network configuration file.
    InfoNetworksJsonPath,
    /// Show the port of the local replica.
    InfoReplicaPort,
    /// Show the revision of the replica shipped with the tool.
    InfoReplicaRev,
    /// Show the port of the webserver.
    InfoWebserverPort,
    /// Print the ledger account identifier of a principal.
    LedgerAccountId,
    /// Print the ledger balance of the user, on the main network.
    LedgerBalance,
    /// Show the subnet types of the cycles minting canister.
    LedgerShowSubnetTypes,
    /// Ping the replica of the selected network.
    Ping,
    /// Stop the local replica.
    StopReplica,
    /// Print the tool's version.
    Version,
}

/// The arguments of `command` for the identity `identity` (already trimmed)
/// and the network `network`.
pub open spec fn command_args(command: DfxCommands, identity: Seq<char>, network: Seq<char>) -> Seq<
    Seq<char>,
> {
    match command {
        DfxCommands::CyclesBalance => seq!["--identity"@, identity, "wallet"@, "balance"@],
        DfxCommands::IdentityGetPrincipal => seq!["--identity"@, identity, "identity"@, "get-principal"@, "--network"@, network],
        DfxCommands::IdentityGetWallet => seq!["--identity"@, identity, "identity"@, "get-wallet"@, "--network"@, network],
        DfxCommands::IdentityList => seq!["identity"@, "list"@],
        DfxCommands::IdentityWhoami => seq!["identity"@, "whoami"@, "--network"@, network],
        DfxCommands::InfoNetworksJsonPath => seq!["--identity"@, identity, "info"@, "networks-json-path"@, "--network"@, network],
        DfxCommands::InfoReplicaPort => seq!["info"@, "replica-port"@],
        DfxCommands::InfoReplicaRev => seq!["info"@, "replica-rev"@],
        DfxCommands::InfoWebserverPort => seq!["info"@, "webserver-port"@],
        DfxCommands::LedgerAccountId => seq!["--identity"@, identity, "ledger"@, "account-id"@, "--network"@, network],
        DfxCommands::LedgerBalance => seq!["--identity"@, identity, "ledger"@, "balance"@, "--network"@, "ic"@],
        DfxCommands::LedgerShowSubnetTypes => seq!["--identity"@, identity, "ledger"@, "show-subnet-types"@, "--network"@, network],
        DfxCommands::Ping => seq!["ping"@, network],
        DfxCommands::StopReplica => seq!["stop"@],
        DfxCommands::Version => seq!["version"@],
    }
}

/// What a successful ping prints, as one line: runs of two blanks become a
/// comma and a blank, and the comma that this leaves after a line break is
/// dropped.
pub open spec fn ping_line(stdout: Seq<char>) -> Seq<char> {
    replace_all(replace_all(stdout, "  "@, ", "@), "\n,"@, Seq::empty())
}

/// The text of a command's output: a failed ping is `Error`, stopping the
/// replica reports both streams, and every other command its standard output.
pub open spec fn output_text(
    command: DfxCommands,
    stdout: Seq<char>,
    stderr: Seq<char>,
    success: bool,
) -> Seq<char> {
    match command {
        DfxCommands::Ping => if success {
            ping_line(stdout)
        } else {
            "Error"@
        },
        DfxCommands::StopReplica => stdout + stderr,
        _ => stdout,
    }
}

impl DfxCommands {
    /// The arguments to run this command with, for the identity `identity`
    /// (already trimmed) and the network `network`.
    pub fn args(&self, identity: &str, network: &str) -> (r: Vec<String>)
        ensures
            r.deep_view() == command_args(*self, identity@, network@),
    {
        let r = match self {
            DfxCommands::CyclesBalance => vec!["--identity".to_owned(), identity.to_owned(), "wallet".to_owned(), "balance".to_owned()],
            DfxCommands::IdentityGetPrincipal => vec!["--identity".to_owned(), identity.to_owned(), "identity".to_owned(), "get-principal".to_owned(), "--network".to_owned(), network.to_owned()],
            DfxCommands::IdentityGetWallet => vec!["--identity".to_owned(), identity.to_owned(), "identity".to_owned(), "get-wallet".to_owned(), "--network".to_owned(), network.to_owned()],
            DfxCommands::IdentityList => vec!["identity".to_owned(), "list".to_owned()],
            DfxCommands::IdentityWhoami => vec!["identity".to_owned(), "whoami".to_owned(), "--network".to_owned(), network.to_owned()],
            DfxCommands::InfoNetworksJsonPath => vec!["--identity".to_owned(), identity.to_owned(), "info".to_owned(), "networks-json-path".to_owned(), "--network".to_owned(), network.to_owned()],
            DfxCommands::InfoReplicaPort => vec!["info".to_owned(), "replica-port".to_owned()],
            DfxCommands::InfoReplicaRev => vec!["info".to_owned(), "replica-rev".to_owned()],
            DfxCommands::InfoWebserverPort => vec!["info".to_owned(), "webserver-port".to_owned()],
            DfxCommands::LedgerAccountId => vec!["--identity".to_owned(), identity.to_owned(), "ledger".to_owned(), "account-id".to_owned(), "--network".to_owned(), network.to_owned()],
            DfxCommands::LedgerBalance => vec!["--identity".to_owned(), identity.to_owned(), "ledger".to_owned(), "balance".to_owned(), "--network".to_owned(), "ic".to_owned()],
            DfxCommands::LedgerShowSubnetTypes => vec!["--identity".to_owned(), identity.to_owned(), "ledger".to_owned(), "show-subnet-types".to_owned(), "--network".to_owned(), network.to_owned()],
            DfxCommands::Ping => vec!["ping".to_owned(), network.to_owned()],
            DfxCommands::StopReplica => vec!["stop".to_owned()],
            DfxCommands::Version => vec!["version".to_owned()],
        };
        assert(r.deep_view() =~= command_args(*self, identity@, network@));
        r
    }

    /// The text of this command's output, from its standard output and error
    /// streams (already decoded) and whether it succeeded.
    pub fn output_text(&self, stdout: &str, stderr: &str, success: bool) -> (r: String)
        ensures
            r@ == output_text(*self, stdout@, stderr@, success),
    {
        match self {
            DfxCommands::Ping => {
                if success {
                    let once = replace_every(&chars_of(stdout), &chars_of("  "), &chars_of(", "));
                    string_of(&replace_every(&once, &chars_of("\n,"), &Vec::new()))
                } else {
                    "Error".to_owned()
                }
            },
            DfxCommands::StopReplica => {
                let mut all = stdout.to_owned();
                all.append(stderr);
                all
            },
            _ => stdout.to_owned(),
        }
    }
}

} // verus!
