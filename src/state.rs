//! The state behind the terminal front end, and the decisions it takes on a
//! key press or a refresh. Running commands, reading keys and fetching pages
//! is left to the caller, which hands in what came back.
use vstd::prelude::*;
use vstd::arithmetic::div_mod::lemma_add_mod_noop_right;
use crate::dashboard::ReplicaInfo;
use crate::project::ProjectDatabase;
use crate::text::{
    chars_of, find, find_first, lemma_chars_deep_view, split_chars, split_on, str_eq, string_of,
    trim, trimmed,
};

verus! {

broadcast use lemma_chars_deep_view;

/// Where the log pane takes its lines from.
#[derive(Debug, Clone, Copy, PartialEq, Eq, Structural)]
pub enum LogsSource {
    Replica,
}

/// Which logs the log pane shows.
#[derive(Debug, Clone, Copy, PartialEq, Eq, Structural)]
pub enum LogsPane {
    ReplicaLogs,
    CanisterLogs,
}

/// Whether the local replica runs.
#[derive(Debug, Clone, Copy, PartialEq, Eq, Structural)]
pub enum LocalReplicaState {
    Running,
    NotRunning,
}

impl LocalReplicaState {
    /// How the state is shown.
    pub fn to_text(&self) -> (r: String)
        ensures
            r@ == match self {
                LocalReplicaState::Running => "Running"@,
                LocalReplicaState::NotRunning => "Not running"@,
            },
    {
        match self {
            LocalReplicaState::Running => "Running".to_owned(),
            LocalReplicaState::NotRunning => "Not running".to_owned(),
        }
    }
}

/// What a ping of the replica reports.
#[derive(Debug, Clone, PartialEq)]
pub struct PingOutput {
    pub ic_api_version: String,
    pub replica_health_status: String,
    pub root_key: Vec<u8>,
    pub certified_height: Option<u64>,
    pub impl_hash: Option<String>,
}

/// What is known of the replica of the selected network.
#[derive(Debug, Clone)]
pub struct Replica {
    pub replica_revision_url: String,
    pub replica_url: String,
    pub ping: Option<PingOutput>,
    pub webserver_url: String,
    pub state: LocalReplicaState,
    pub info: Option<ReplicaInfo>,
    pub webserver_port: String,
    pub replica_port: String,
}

impl Replica {
    /// Nothing known yet but the state.
    pub fn unknown(state: LocalReplicaState) -> (r: Replica)
        ensures
            r.state == state,
            r.ping.is_none(),
            r.info.is_none(),
            r.replica_revision_url@.len() == 0,
            r.replica_url@.len() == 0,
            r.webserver_url@.len() == 0,
            r.webserver_port@.len() == 0,
            r.replica_port@.len() == 0,
    {
        Replica {
            replica_revision_url: String::new(),
            replica_url: String::new(),
            ping: None,
            webserver_url: String::new(),
            state,
            info: None,
            webserver_port: String::new(),
            replica_port: String::new(),
        }
    }
}

/// Everything the front end shows and the choices the user made.
#[derive(Debug, Clone)]
pub struct AppState {
    pub collected_logs: Vec<String>,
    pub db: ProjectDatabase,
    pub identities: Vec<String>,
    pub identity_selection_menu_active: bool,
    pub logs_pane: LogsPane,
    pub network_selection_menu_active: bool,
    pub networks: Vec<String>,
    pub path_to_dfx: String,
    pub refresh_interval_ms: u64,
    pub replica: Replica,
    /// Whether the replica's log stream is attached.
    pub replica_logs_attached: bool,
    pub selected_canister_index: usize,
    pub selected_identity: String,
    pub selected_identity_cycles: Option<String>,
    pub selected_identity_icp: Option<String>,
    pub selected_identity_index: usize,
    pub selected_identity_principal: Option<String>,
    pub selected_network: String,
    pub selected_network_index: usize,
}

/// A key the front end reacts to.
#[derive(Debug, Clone, Copy, PartialEq, Eq, Structural)]
pub enum Key {
    Char(char),
    Enter,
    Esc,
    Up,
    Down,
    Left,
    Right,
    Other,
}

/// What the caller has to do to the local replica after a key press.
#[derive(Debug, Clone, Copy, PartialEq, Eq, Structural)]
pub enum ReplicaAction {
    Nothing,
    /// Stop the replica and detach its log stream.
    Stop,
    /// Start the replica and attach its log stream.
    Start,
}

/// What the caller has to do to finish a refresh.
#[derive(Debug, Clone, Copy, PartialEq, Eq, Structural)]
pub enum RefreshStep {
    Done,
    /// Read the local replica's ports and revision, and hand them to
    /// `AppState::local_replica_read`; then fetch its dashboard.
    ReadLocalReplica,
}

pub const DEFAULT_REFRESH_MS: u64 = 1500;

pub const MIN_REFRESH_MS: u64 = 1000;

pub const MAX_REFRESH_MS: u64 = 10000;

pub const REFRESH_STEP_MS: u64 = 100;

/// The state of the local replica that a ping reply shows.
pub open spec fn state_after_ping(ping: Seq<char>) -> LocalReplicaState {
    if find(ping, "Error"@).is_some() {
        LocalReplicaState::NotRunning
    } else {
        LocalReplicaState::Running
    }
}

/// The position after `i` in a list of `len` entries, wrapping round.
pub open spec fn next_index(i: usize, len: nat) -> usize {
    ((i + 1) % (len as int)) as usize
}

/// The position before `i` in a list of `len` entries, wrapping round.
pub open spec fn prev_index(i: usize, len: nat) -> usize {
    if i > 0 {
        (i - 1) as usize
    } else {
        (len - 1) as usize
    }
}

/// The number of canisters of the snapshot, if there is one.
pub open spec fn canister_count(s: AppState) -> nat {
    match s.replica.info {
        Some(info) => info.canisters@.len(),
        None => 0,
    }
}

/// Moves the selection of the open menu, or else of the canister list, one
/// entry forward or back.
pub open spec fn move_selection(s: AppState, forward: bool) -> AppState {
    if s.network_selection_menu_active {
        if s.networks@.len() > 0 {
            AppState {
                selected_network_index: if forward {
                    next_index(s.selected_network_index, s.networks@.len())
                } else {
                    prev_index(s.selected_network_index, s.networks@.len())
                },
                ..s
            }
        } else {
            s
        }
    } else if s.identity_selection_menu_active {
        if s.identities@.len() > 0 {
            AppState {
                selected_identity_index: if forward {
                    next_index(s.selected_identity_index, s.identities@.len())
                } else {
                    prev_index(s.selected_identity_index, s.identities@.len())
                },
                ..s
            }
        } else {
            s
        }
    } else if canister_count(s) > 0 {
        AppState {
            selected_canister_index: if forward {
                next_index(s.selected_canister_index, canister_count(s))
            } else {
                prev_index(s.selected_canister_index, canister_count(s))
            },
            ..s
        }
    } else {
        s
    }
}

pub open spec fn other_pane(p: LogsPane) -> LogsPane {
    match p {
        LogsPane::ReplicaLogs => LogsPane::CanisterLogs,
        LogsPane::CanisterLogs => LogsPane::ReplicaLogs,
    }
}

/// The state after `key`, for every key but `Enter` and `s`.
pub open spec fn after_key(s: AppState, key: Key) -> AppState {
    match key {
        Key::Char(c) => if c == '+' {
            if s.refresh_interval_ms < MAX_REFRESH_MS {
                AppState { refresh_interval_ms: (s.refresh_interval_ms + REFRESH_STEP_MS) as u64, ..s }
            } else {
                s
            }
        } else if c == '-' {
            if s.refresh_interval_ms > MIN_REFRESH_MS {
                AppState { refresh_interval_ms: (s.refresh_interval_ms - REFRESH_STEP_MS) as u64, ..s }
            } else {
                s
            }
        } else if c == 'i' {
            AppState {
                network_selection_menu_active: false,
                identity_selection_menu_active: true,
                ..s
            }
        } else if c == 'n' {
            AppState {
                identity_selection_menu_active: false,
                network_selection_menu_active: true,
                ..s
            }
        } else {
            s
        },
        Key::Esc => AppState {
            network_selection_menu_active: false,
            identity_selection_menu_active: false,
            ..s
        },
        Key::Left | Key::Right => AppState { logs_pane: other_pane(s.logs_pane), ..s },
        Key::Down => move_selection(s, true),
        Key::Up => move_selection(s, false),
        _ => s,
    }
}

/// The state after `s` in `s0` is `t`: a running replica is marked stopped,
/// its log stream detached and the collected logs dropped; a stopped one is
/// marked running with its log stream attached.
pub open spec fn replica_toggled(s0: AppState, t: AppState) -> bool {
    match s0.replica.state {
        LocalReplicaState::Running => {
            &&& t.collected_logs@.len() == 0
            &&& t == AppState {
                replica: Replica { state: LocalReplicaState::NotRunning, ..s0.replica },
                replica_logs_attached: false,
                collected_logs: t.collected_logs,
                ..s0
            }
        },
        LocalReplicaState::NotRunning => t == AppState {
            replica: Replica { state: LocalReplicaState::Running, ..s0.replica },
            replica_logs_attached: true,
            ..s0
        },
    }
}

/// What the caller has to do to the replica after `key`.
pub open spec fn action_of(s: AppState, key: Key) -> ReplicaAction {
    if key == Key::Char('s') {
        match s.replica.state {
            LocalReplicaState::Running => ReplicaAction::Stop,
            LocalReplicaState::NotRunning => ReplicaAction::Start,
        }
    } else {
        ReplicaAction::Nothing
    }
}

/// The state after `Enter` in `s` is `t`: the open menu closes, and the entry
/// selected in it, if it is in range, becomes the selected one.
pub open spec fn entered(s: AppState, t: AppState) -> bool {
    &&& t.selected_network@ == if s.network_selection_menu_active && s.selected_network_index
        < s.networks@.len() {
        s.networks@[s.selected_network_index as int]@
    } else {
        s.selected_network@
    }
    &&& t.selected_identity@ == if s.identity_selection_menu_active && s.selected_identity_index
        < s.identities@.len() {
        s.identities@[s.selected_identity_index as int]@
    } else {
        s.selected_identity@
    }
    &&& t == AppState {
        network_selection_menu_active: false,
        identity_selection_menu_active: false,
        selected_network: t.selected_network,
        selected_identity: t.selected_identity,
        ..s
    }
}

/// The state of the local replica after a refresh whose ping replied `ping`:
/// it is taken as stopped only on the local network, when the ping failed and
/// no log stream is attached.
pub open spec fn refreshed_state(s: AppState, ping: Seq<char>) -> LocalReplicaState {
    if find(ping, "Error"@).is_some() && s.selected_network@ == "local"@ && !s.replica_logs_attached {
        LocalReplicaState::NotRunning
    } else {
        LocalReplicaState::Running
    }
}

pub open spec fn not_available() -> Seq<char> {
    "N/A"@
}

/// The lines of `text`.
fn lines_of(text: &str) -> (r: Vec<String>)
    ensures
        r.deep_view() == split_on(text@, '\n'),
{
    let pieces = split_chars(&chars_of(text), '\n');
    let mut r: Vec<String> = Vec::new();
    let mut i: usize = 0;
    while i < pieces.len()
        invariant
            i <= pieces.len(),
            pieces.deep_view() == split_on(text@, '\n'),
            r.deep_view() == pieces.deep_view().subrange(0, i as int),
        decreases pieces.len() - i,
    {
        let ghost before = r.deep_view();
        assert(pieces.deep_view()[i as int] == pieces@[i as int]@);
        r.push(string_of(&pieces[i]));
        assert(r.deep_view() =~= before.push(pieces@[i as int]@));
        assert(pieces.deep_view().subrange(0, i + 1) =~= pieces.deep_view().subrange(0, i as int).push(
            pieces@[i as int]@,
        ));
        i = i + 1;
    }
    assert(pieces.deep_view().subrange(0, i as int) =~= pieces.deep_view());
    r
}

/// `prefix` followed by `rest`.
fn joined(prefix: &str, rest: &str) -> (r: String)
    ensures
        r@ == prefix@ + rest@,
{
    let mut r = prefix.to_owned();
    r.append(rest);
    r
}

/// The position after `i` in a list of `len` entries, wrapping round.
fn next_position(i: usize, len: usize) -> (r: usize)
    requires
        len > 0,
    ensures
        r == next_index(i, len as nat),
{
    proof {
        lemma_add_mod_noop_right(1, i as int, len as int);
    }
    (i % len + 1) % len
}

/// The position before `i` in a list of `len` entries, wrapping round.
fn prev_position(i: usize, len: usize) -> (r: usize)
    requires
        len > 0,
    ensures
        r == prev_index(i, len as nat),
{
    if i > 0 {
        i - 1
    } else {
        len - 1
    }
}

impl AppState {
    /// The state at start: `identity` is the identity in use, `ping` what a
    /// ping of the local replica replied, which tells whether it runs.
    pub fn new(path_to_dfx: &str, db: ProjectDatabase, identity: String, ping: &str) -> (r:
        AppState)
        ensures
            r.selected_identity == identity,
            r.selected_network@ == "local"@,
            r.refresh_interval_ms == DEFAULT_REFRESH_MS,
            r.networks.deep_view() == seq!["local"@, "ic"@],
            r.path_to_dfx@ == path_to_dfx@,
            r.db == db,
            r.replica.state == state_after_ping(ping@),
            r.replica.ping.is_none(),
            r.replica.info.is_none(),
            r.collected_logs@.len() == 0,
            r.identities@.len() == 0,
            !r.identity_selection_menu_active,
            !r.network_selection_menu_active,
            !r.replica_logs_attached,
            r.logs_pane == LogsPane::ReplicaLogs,
            r.selected_canister_index == 0,
            r.selected_identity_index == 0,
            r.selected_network_index == 0,
            r.selected_identity_cycles.is_none(),
            r.selected_identity_icp.is_none(),
            r.selected_identity_principal.is_none(),
    {
        let state = match find_first(&chars_of(ping), &chars_of("Error")) {
            Some(_) => LocalReplicaState::NotRunning,
            None => LocalReplicaState::Running,
        };
        let networks = vec!["local".to_owned(), "ic".to_owned()];
        assert(networks.deep_view() =~= seq!["local"@, "ic"@]);
        AppState {
            collected_logs: Vec::new(),
            db,
            identities: Vec::new(),
            identity_selection_menu_active: false,
            logs_pane: LogsPane::ReplicaLogs,
            network_selection_menu_active: false,
            networks,
            path_to_dfx: path_to_dfx.to_owned(),
            refresh_interval_ms: DEFAULT_REFRESH_MS,
            replica: Replica::unknown(state),
            replica_logs_attached: false,
            selected_canister_index: 0,
            selected_identity: identity,
            selected_identity_cycles: None,
            selected_identity_icp: None,
            selected_identity_index: 0,
            selected_identity_principal: None,
            selected_network: "local".to_owned(),
            selected_network_index: 0,
        }
    }

    /// The first part of a refresh. The caller hands in what the identity
    /// commands printed (the identity list only while its menu is open), what
    /// the ping printed and the reply it read from it. On the local network a
    /// failed ping marks the replica as stopped unless its log stream is
    /// attached; a stopped local replica and the main network get fixed
    /// addresses and no snapshot. A running local replica asks for its ports
    /// and revision next.
    pub fn refresh(
        &mut self,
        principal: String,
        icp: String,
        cycles: String,
        identity_list: Option<String>,
        ping: &str,
        ping_output: Option<PingOutput>,
    ) -> (r: RefreshStep)
        ensures
            final(self).selected_identity_principal == Some(principal),
            final(self).selected_identity_icp == Some(icp),
            final(self).selected_identity_cycles == Some(cycles),
            final(self).identities.deep_view() == match identity_list {
                Some(l) => split_on(l@, '\n'),
                None => old(self).identities.deep_view(),
            },
            identity_list.is_none() ==> final(self).identities == old(self).identities,
            final(self).replica.state == refreshed_state(*old(self), ping@),
            final(self).replica.ping == ping_output,
            r == if old(self).selected_network@ == "local"@ && refreshed_state(*old(self), ping@)
                == LocalReplicaState::Running {
                RefreshStep::ReadLocalReplica
            } else {
                RefreshStep::Done
            },
            old(self).selected_network@ == "local"@ && refreshed_state(*old(self), ping@)
                == LocalReplicaState::NotRunning ==> {
                &&& final(self).replica.replica_revision_url@ == not_available()
                &&& final(self).replica.replica_url@ == not_available()
                &&& final(self).replica.webserver_url@ == not_available()
                &&& final(self).replica.info.is_none()
            },
            old(self).selected_network@ != "local"@ && old(self).selected_network@ == "ic"@ ==> {
                &&& final(self).replica.replica_revision_url@
                    == "https://dashboard.internetcomputer.org/releases"@
                &&& final(self).replica.replica_url@ == "http://ic0.app"@
                &&& final(self).replica.webserver_url@ == not_available()
                &&& final(self).replica.info.is_none()
            },
            r == RefreshStep::ReadLocalReplica || (old(self).selected_network@ != "local"@
                && old(self).selected_network@ != "ic"@) ==> {
                &&& final(self).replica.replica_revision_url == old(self).replica.replica_revision_url
                &&& final(self).replica.replica_url == old(self).replica.replica_url
                &&& final(self).replica.webserver_url == old(self).replica.webserver_url
                &&& final(self).replica.info == old(self).replica.info
            },
            final(self).replica == (Replica {
                state: final(self).replica.state,
                ping: final(self).replica.ping,
                replica_revision_url: final(self).replica.replica_revision_url,
                replica_url: final(self).replica.replica_url,
                webserver_url: final(self).replica.webserver_url,
                info: final(self).replica.info,
                ..old(self).replica
            }),
            *final(self) == (AppState {
                selected_identity_principal: final(self).selected_identity_principal,
                selected_identity_icp: final(self).selected_identity_icp,
                selected_identity_cycles: final(self).selected_identity_cycles,
                identities: final(self).identities,
                replica: final(self).replica,
                ..*old(self)
            }),
    {
        self.selected_identity_principal = Some(principal);
        self.selected_identity_icp = Some(icp);
        self.selected_identity_cycles = Some(cycles);
        match identity_list {
            Some(l) => {
                self.identities = lines_of(l.as_str());
            },
            None => {},
        }
        let local = str_eq(self.selected_network.as_str(), "local");
        let failed = find_first(&chars_of(ping), &chars_of("Error")).is_some();
        if failed && local && !self.replica_logs_attached {
            self.replica.state = LocalReplicaState::NotRunning;
        } else {
            self.replica.state = LocalReplicaState::Running;
        }
        self.replica.ping = ping_output;
        if local {
            match self.replica.state {
                LocalReplicaState::Running => {
                    return RefreshStep::ReadLocalReplica;
                },
                LocalReplicaState::NotRunning => {
                    self.replica.replica_revision_url = "N/A".to_owned();
                    self.replica.replica_url = "N/A".to_owned();
                    self.replica.webserver_url = "N/A".to_owned();
                    self.replica.info = None;
                },
            }
        } else if str_eq(self.selected_network.as_str(), "ic") {
            self.replica.replica_revision_url = "https://dashboard.internetcomputer.org/releases".to_owned();
            self.replica.replica_url = "http://ic0.app".to_owned();
            self.replica.webserver_url = "N/A".to_owned();
            self.replica.info = None;
        }
        RefreshStep::Done
    }

    /// The second part of a refresh of a running local replica: what the
    /// port and revision commands printed. The dashboard to fetch next is at
    /// the new `replica.replica_url`.
    pub fn local_replica_read(&mut self, webserver_port: &str, replica_port: &str, replica_rev: &str)
        ensures
            final(self).replica.webserver_port@ == trim(webserver_port@),
            final(self).replica.replica_port@ == trim(replica_port@),
            final(self).replica.webserver_url@ == "http://localhost:"@ + trim(webserver_port@),
            final(self).replica.replica_revision_url@ == "https://dashboard.internetcomputer.org/release/"@
                + trim(replica_rev@),
            final(self).replica.replica_url@ == "http://localhost:"@ + trim(replica_port@)
                + "/_/dashboard"@,
            final(self).replica == (Replica {
                webserver_port: final(self).replica.webserver_port,
                replica_port: final(self).replica.replica_port,
                webserver_url: final(self).replica.webserver_url,
                replica_revision_url: final(self).replica.replica_revision_url,
                replica_url: final(self).replica.replica_url,
                ..old(self).replica
            }),
            *final(self) == (AppState { replica: final(self).replica, ..*old(self) }),
    {
        let web = string_of(&trimmed(&chars_of(webserver_port)));
        let rep = string_of(&trimmed(&chars_of(replica_port)));
        let rev = string_of(&trimmed(&chars_of(replica_rev)));
        self.replica.webserver_url = joined("http://localhost:", web.as_str());
        self.replica.replica_revision_url = joined(
            "https://dashboard.internetcomputer.org/release/",
            rev.as_str(),
        );
        let mut url = joined("http://localhost:", rep.as_str());
        url.append("/_/dashboard");
        self.replica.replica_url = url;
        self.replica.webserver_port = web;
        self.replica.replica_port = rep;
    }

    fn move_selection(&mut self, forward: bool)
        ensures
            *final(self) == move_selection(*old(self), forward),
    {
        if self.network_selection_menu_active {
            let len = self.networks.len();
            if len > 0 {
                self.selected_network_index = if forward {
                    next_position(self.selected_network_index, len)
                } else {
                    prev_position(self.selected_network_index, len)
                };
            }
        } else if self.identity_selection_menu_active {
            let len = self.identities.len();
            if len > 0 {
                self.selected_identity_index = if forward {
                    next_position(self.selected_identity_index, len)
                } else {
                    prev_position(self.selected_identity_index, len)
                };
            }
        } else {
            let len = match &self.replica.info {
                Some(info) => info.canisters.len(),
                None => 0,
            };
            if len > 0 {
                self.selected_canister_index = if forward {
                    next_position(self.selected_canister_index, len)
                } else {
                    prev_position(self.selected_canister_index, len)
                };
            }
        }
    }

    /// Reacts to `key`: `+` and `-` change the refresh interval within its
    /// bounds, `i` and `n` open the identity or network menu, `Esc` closes
    /// them, `Enter` takes the entry selected in the open menu, `s` stops the
    /// local replica (dropping the collected logs) or starts it, `Left` and `Right` switch the log pane, and
    /// `Up` and `Down` move the selection of the open menu or else of the
    /// canister list, wrapping round.
    pub fn handle_input(&mut self, key: Key) -> (r: ReplicaAction)
        ensures
            r == action_of(*old(self), key),
            key != Key::Enter && key != Key::Char('s') ==> *final(self) == after_key(
                *old(self),
                key,
            ),
            key == Key::Enter ==> entered(*old(self), *final(self)),
            key == Key::Char('s') ==> replica_toggled(*old(self), *final(self)),
    {
        match key {
            Key::Char(c) => {
                if c == '+' {
                    if self.refresh_interval_ms < MAX_REFRESH_MS {
                        self.refresh_interval_ms = self.refresh_interval_ms + REFRESH_STEP_MS;
                    }
                } else if c == '-' {
                    if self.refresh_interval_ms > MIN_REFRESH_MS {
                        self.refresh_interval_ms = self.refresh_interval_ms - REFRESH_STEP_MS;
                    }
                } else if c == 'i' {
                    self.network_selection_menu_active = false;
                    self.identity_selection_menu_active = true;
                } else if c == 'n' {
                    self.identity_selection_menu_active = false;
                    self.network_selection_menu_active = true;
                } else if c == 's' {
                    match self.replica.state {
                        LocalReplicaState::Running => {
                            self.replica.state = LocalReplicaState::NotRunning;
                            self.replica_logs_attached = false;
                            self.collected_logs = Vec::new();
                            return ReplicaAction::Stop;
                        },
                        LocalReplicaState::NotRunning => {
                            self.replica.state = LocalReplicaState::Running;
                            self.replica_logs_attached = true;
                            return ReplicaAction::Start;
                        },
                    }
                }
            },
            Key::Esc => {
                self.network_selection_menu_active = false;
                self.identity_selection_menu_active = false;
            },
            Key::Enter => {
                if self.network_selection_menu_active {
                    self.network_selection_menu_active = false;
                    if self.selected_network_index < self.networks.len() {
                        self.selected_network = self.networks[self.selected_network_index].clone();
                    }
                }
                if self.identity_selection_menu_active {
                    self.identity_selection_menu_active = false;
                    if self.selected_identity_index < self.identities.len() {
                        self.selected_identity = self.identities[self.selected_identity_index].clone();
                    }
                }
            },
            Key::Left | Key::Right => {
                self.logs_pane = match self.logs_pane {
                    LogsPane::ReplicaLogs => LogsPane::CanisterLogs,
                    LogsPane::CanisterLogs => LogsPane::ReplicaLogs,
                };
            },
            Key::Down => {
                self.move_selection(true);
            },
            Key::Up => {
                self.move_selection(false);
            },
            Key::Other => {},
        }
        ReplicaAction::Nothing
    }
}

} // verus!
