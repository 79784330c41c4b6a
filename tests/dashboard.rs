use dfx_top::dashboard::{CanisterInfo, ReplicaInfo};
use dfx_top::exports::Exports;

const EXAMPLE_HTML: &str = r#"
<!DOCTYPE html>
<!-- saved from url=(0034)http://localhost:53161/_/dashboard -->
<html lang="en"><head><meta http-equiv="Content-Type" content="text/html; charset=UTF-8">

    <title>Internet Computer Replica Dashboard</title>
</head>
<body data-new-gr-c-s-check-loaded="14.1152.0" data-gr-ext-installed="" data-gr-ext-disabled="forever">
<h1>Internet Computer Replica Dashboard</h1>

<h2>Subnet Settings &amp; Parameters</h2>
<table>
    <tbody><tr>
        <td>Replica Version</td>
        <td class="debug">0.9.0</td>
    </tr>
    <tr>
        <td>Subnet Type</td>
        <td class="debug">System</td>
    </tr>
    <tr>
        <td>Total Compute Allocation</td>
        <td class="debug">0 %</td>
    </tr>
</tbody></table>
<h2>Http Server Config</h2>
<div class="debug">
    <pre>Config { listen_addr: 127.0.0.1:0, port_file_path: Some("/Users/mnl/Library/Application Support/org.dfinity.dfx/network/local/replica-configuration/replica-1.port"), connection_read_timeout_seconds: 1200, request_timeout_seconds: 300, http_max_concurrent_streams: 256, max_request_size_bytes: 5242880, max_delegation_certificate_size_bytes: 1048576, max_request_receive_seconds: 300, max_read_state_concurrent_requests: 100, max_status_concurrent_requests: 100, max_catch_up_package_concurrent_requests: 100, max_dashboard_concurrent_requests: 100, max_call_concurrent_requests: 50, max_query_concurrent_requests: 400, max_pprof_concurrent_requests: 5 }</pre>
</div>
<h2>Canisters</h2>
<div>Info at height <span class="debug">133</span></div>
<div class="debug">
<table>
    <tbody><tr>
        <th class="text">Canister id</th>
        <th class="text">Status</th>
        <th class="number">Memory allocation</th>
        <th class="number">Last Execution Round</th>
    </tr>
    <tr class="row-separator">
        <td colspan="100%"></td>
    </tr>

    <tr>
        <td class="text">
            <details>
                <summary>bnz7o-iuaaa-aaaaa-qaaaa-cai</summary>
                <div class="verbose">
                    <h3>System state</h3>
                    <table>
                        <tbody><tr><td>controllers</td><td>trg6r-vqw4x-tcu5z-pgm4z-nmas4-ailxn-rjavv-zbzhi-jy2oy-wjrpf-hqe</td></tr>
                        <tr><td>certified_data length</td><td>32 bytes</td></tr>
                        <tr><td>canister_history_memory_usage</td><td>238 bytes</td></tr>
                    </tbody></table>
                    <h3>Execution state</h3>

                    <table>
                        <tbody><tr><td>canister_root</td><td>NOT_USED/canister_states/80000000001000000101</td></tr>
                        <tr><td>wasm_binary size</td><td>1775104 bytes</td></tr>
                        <tr><td>wasm_binary sha256</td><td>c1290ad65e6c9f840928637ed7672b688216a9c1e919eacbacc22af8c904a5e3</td></tr>
                        <tr><td>heap_size</td><td>85 pages</td></tr>
                        <tr><td>stable_memory_size</td><td>0 pages</td></tr>
                        <tr><td>exports</td><td>

                              ExportedFunctions { exported_functions: {Update("add_address"), Update("add_controller"), Update("authorize"), Update("deauthorize"), Update("remove_address"), Update("remove_controller"), Update("set_name"), Update("set_short_name"), Update("wallet_call"), Update("wallet_call128"), Update("wallet_create_canister"), Update("wallet_create_canister128"), Update("wallet_create_wallet"), Update("wallet_create_wallet128"), Update("wallet_receive"), Update("wallet_send"), Update("wallet_send128"), Update("wallet_store_wallet_wasm"), Query("get_chart"), Query("get_controllers"), Query("get_custodians"), Query("get_events"), Query("get_events128"), Query("get_managed_canister_events"), Query("get_managed_canister_events128"), Query("http_request"), Query("list_addresses"), Query("list_managed_canisters"), Query("name"), Query("wallet_api_version"), Query("wallet_balance"), Query("wallet_balance128"), System(CanisterInit), System(CanisterPreUpgrade), System(CanisterPostUpgrade)}, exports_heartbeat: false, exports_global_timer: false }

                        </td></tr>
                    </tbody></table>

                    <h3>Scheduler state</h3>
                    <table>
                        <tbody><tr><td>last_full_execution_round</td><td>104</td></tr>
                        <tr><td>compute_allocation</td><td>0%</td></tr>
                        <tr><td>freeze_threshold (seconds)</td><td>2592000</td></tr>
                        <tr><td>memory_usage</td><td>7345934</td></tr>
                        <tr><td>accumulated_priority</td><td>0 </td></tr>
                        <tr><td>Cycles balance</td><td>93_800_000_000_000</td></tr>
                    </tbody></table>
                </div>
            </details>
        </td>
        <td class="text">Running</td>
        <td class="number">
	    best-effort
        </td>
        <td class="number">104</td>
    </tr>

    <tr>
        <td class="text">
            <details>
                <summary>bkyz2-fmaaa-aaaaa-qaaaq-cai</summary>
                <div class="verbose">
                    <h3>System state</h3>
                    <table>
                        <tbody><tr><td>controllers</td><td>bnz7o-iuaaa-aaaaa-qaaaa-cai trg6r-vqw4x-tcu5z-pgm4z-nmas4-ailxn-rjavv-zbzhi-jy2oy-wjrpf-hqe</td></tr>
                        <tr><td>certified_data length</td><td>0 bytes</td></tr>
                        <tr><td>canister_history_memory_usage</td><td>268 bytes</td></tr>
                    </tbody></table>
                    <h3>Execution state</h3>

                    <table>
                        <tbody><tr><td>canister_root</td><td>NOT_USED/canister_states/80000000001000010101</td></tr>
                        <tr><td>wasm_binary size</td><td>130856 bytes</td></tr>
                        <tr><td>wasm_binary sha256</td><td>78f59d500b791021f591aedec685df18936982b3971538b94d0d1e3190faebaf</td></tr>
                        <tr><td>heap_size</td><td>33 pages</td></tr>
                        <tr><td>stable_memory_size</td><td>0 pages</td></tr>
                        <tr><td>exports</td><td>

                              ExportedFunctions { exported_functions: {Update("__motoko_async_helper"), Update("__motoko_gc_trigger"), Query("__get_candid_interface_tmp_hack"), Query("__motoko_stable_var_info"), Query("greet"), System(CanisterStart), System(CanisterInit), System(CanisterPreUpgrade), System(CanisterPostUpgrade), System(CanisterGlobalTimer)}, exports_heartbeat: false, exports_global_timer: true }

                        </td></tr>
                    </tbody></table>

                    <h3>Scheduler state</h3>
                    <table>
                        <tbody><tr><td>last_full_execution_round</td><td>0</td></tr>
                        <tr><td>compute_allocation</td><td>0%</td></tr>
                        <tr><td>freeze_threshold (seconds)</td><td>2592000</td></tr>
                        <tr><td>memory_usage</td><td>2294162</td></tr>
                        <tr><td>accumulated_priority</td><td>0 </td></tr>
                        <tr><td>Cycles balance</td><td>3_100_000_000_000</td></tr>
                    </tbody></table>
                </div>
            </details>
        </td>
        <td class="text">Running</td>
        <td class="number">
        best-effort
        </td>
        <td class="number">0</td>
    </tr>

    <tr>
        <td class="text">
            <details>
                <summary>bd3sg-teaaa-aaaaa-qaaba-cai</summary>
                <div class="verbose">
                    <h3>System state</h3>
                    <table>
                        <tbody><tr><td>controllers</td><td>bnz7o-iuaaa-aaaaa-qaaaa-cai trg6r-vqw4x-tcu5z-pgm4z-nmas4-ailxn-rjavv-zbzhi-jy2oy-wjrpf-hqe</td></tr>
                        <tr><td>certified_data length</td><td>32 bytes</td></tr>
                        <tr><td>canister_history_memory_usage</td><td>268 bytes</td></tr>
                    </tbody></table>
                    <h3>Execution state</h3>

                    <table>
                        <tbody><tr><td>canister_root</td><td>NOT_USED/canister_states/80000000001000020101</td></tr>
                        <tr><td>wasm_binary size</td><td>362850 bytes</td></tr>
                        <tr><td>wasm_binary sha256</td><td>3c86d912ead6de7133b9f787df4ca9feee07bea8835d3ed594b47ee89e6cb730</td></tr>
                        <tr><td>heap_size</td><td>71 pages</td></tr>
                        <tr><td>stable_memory_size</td><td>0 pages</td></tr>
                        <tr><td>exports</td><td>

                              ExportedFunctions { exported_functions: {Update("authorize"), Update("clear"), Update("commit_batch"), Update("commit_proposed_batch"), Update("compute_evidence"), Update("configure"), Update("create_asset"), Update("create_batch"), Update("create_chunk"), Update("deauthorize"), Update("delete_asset"), Update("delete_batch"), Update("get_configuration"), Update("grant_permission"), Update("list_authorized"), Update("list_permitted"), Update("propose_commit_batch"), Update("revoke_permission"), Update("set_asset_content"), Update("set_asset_properties"), Update("store"), Update("take_ownership"), Update("unset_asset_content"), Update("validate_commit_proposed_batch"), Update("validate_configure"), Update("validate_grant_permission"), Update("validate_revoke_permission"), Update("validate_take_ownership"), Query("api_version"), Query("certified_tree"), Query("get"), Query("get_asset_properties"), Query("get_chunk"), Query("http_request"), Query("http_request_streaming_callback"), Query("list"), Query("retrieve"), System(CanisterInit), System(CanisterPreUpgrade), System(CanisterPostUpgrade)}, exports_heartbeat: false, exports_global_timer: false }

                        </td></tr>
                    </tbody></table>

                    <h3>Scheduler state</h3>
                    <table>
                        <tbody><tr><td>last_full_execution_round</td><td>128</td></tr>
                        <tr><td>compute_allocation</td><td>0%</td></tr>
                        <tr><td>freeze_threshold (seconds)</td><td>2592000</td></tr>
                        <tr><td>memory_usage</td><td>5023323</td></tr>
                        <tr><td>accumulated_priority</td><td>0 </td></tr>
                        <tr><td>Cycles balance</td><td>3_100_000_000_000</td></tr>
                    </tbody></table>
                </div>
            </details>
        </td>
        <td class="text">Running</td>
        <td class="number">
	    best-effort
        </td>
        <td class="number">128</td>
    </tr>

    <tr>
        <td class="text">
            <details>
                <summary>be2us-64aaa-aaaaa-qaabq-cai</summary>
                <div class="verbose">
                    <h3>System state</h3>
                    <table>
                        <tbody><tr><td>controllers</td><td>trg6r-vqw4x-tcu5z-pgm4z-nmas4-ailxn-rjavv-zbzhi-jy2oy-wjrpf-hqe</td></tr>
                        <tr><td>certified_data length</td><td>0 bytes</td></tr>
                        <tr><td>canister_history_memory_usage</td><td>238 bytes</td></tr>
                    </tbody></table>
                    <h3>Execution state</h3>

                    <table>
                        <tbody><tr><td>canister_root</td><td>NOT_USED/canister_states/80000000001000030101</td></tr>
                        <tr><td>wasm_binary size</td><td>1603770 bytes</td></tr>
                        <tr><td>wasm_binary sha256</td><td>b91e3dd381aedb002633352f8ebad03b6eee330b7e30c3d15a5657e6f428d815</td></tr>
                        <tr><td>heap_size</td><td>24 pages</td></tr>
                        <tr><td>stable_memory_size</td><td>0 pages</td></tr>
                        <tr><td>exports</td><td>

                              ExportedFunctions { exported_functions: {Query("binding"), Query("did_to_js"), Query("http_request"), Query("merge_init_args"), Query("subtype")}, exports_heartbeat: false, exports_global_timer: false }

                        </td></tr>
                    </tbody></table>

                    <h3>Scheduler state</h3>
                    <table>
                        <tbody><tr><td>last_full_execution_round</td><td>0</td></tr>
                        <tr><td>compute_allocation</td><td>0%</td></tr>
                        <tr><td>freeze_threshold (seconds)</td><td>2592000</td></tr>
                        <tr><td>memory_usage</td><td>3176904</td></tr>
                        <tr><td>accumulated_priority</td><td>0 </td></tr>
                        <tr><td>Cycles balance</td><td>100_000_000_000_000</td></tr>
                    </tbody></table>
                </div>
            </details>
        </td>
        <td class="text">Running</td>
        <td class="number">
	    best-effort
        </td>
        <td class="number">0</td>
    </tr>

</tbody></table>
</div>

</body></html>
"#;

#[test]
fn parse_example_html() {
    

    let parsed = ReplicaInfo::parse_from_html_dashboard(EXAMPLE_HTML);
    assert!(parsed.is_ok());
    let expected = ReplicaInfo {
        replica_version: "0.9.0".to_string(),
        subnet_type: "System".to_string(),
        total_compute_allocation: "0 %".to_string(),
        http_server_config: "Config { listen_addr: 127.0.0.1:0, port_file_path: Some(\"/Users/mnl/Library/Application Support/org.dfinity.dfx/network/local/replica-configuration/replica-1.port\"), connection_read_timeout_seconds: 1200, request_timeout_seconds: 300, http_max_concurrent_streams: 256, max_request_size_bytes: 5242880, max_delegation_certificate_size_bytes: 1048576, max_request_receive_seconds: 300, max_read_state_concurrent_requests: 100, max_status_concurrent_requests: 100, max_catch_up_package_concurrent_requests: 100, max_dashboard_concurrent_requests: 100, max_call_concurrent_requests: 50, max_query_concurrent_requests: 400, max_pprof_concurrent_requests: 5 }".into(),
        canisters: vec![CanisterInfo {
            canister_id: "bnz7o-iuaaa-aaaaa-qaaaa-cai".to_string(),
            status: "Running".to_string(),
            memory_allocation: "best-effort".to_string(),
            last_execution_round: "0".to_string(),
            controllers: "trg6r-vqw4x-tcu5z-pgm4z-nmas4-ailxn-rjavv-zbzhi-jy2oy-wjrpf-hqe"
                .to_string(),
            certified_data_length: "32 bytes".to_string(),
            canister_history_memory_usage: "238 bytes".to_string(),
            exports: Exports {
                exported_query_functions: vec![
                    "get_chart".to_string(),
                    "get_controllers".to_string(),
                    "get_custodians".to_string(),
                    "get_events".to_string(),
                    "get_events128".to_string(),
                    "get_managed_canister_events".to_string(),
                    "get_managed_canister_events128".to_string(),
                    "http_request".to_string(),
                    "list_addresses".to_string(),
                    "list_managed_canisters".to_string(),
                    "name".to_string(),
                    "wallet_api_version".to_string(),
                    "wallet_balance".to_string(),
                    "wallet_balance128".to_string(),
                ],
                exported_update_functions: vec![
                    "add_address".to_string(),
                    "add_controller".to_string(),
                    "authorize".to_string(),
                    "deauthorize".to_string(),
                    "remove_address".to_string(),
                    "remove_controller".to_string(),
                    "set_name".to_string(),
                    "set_short_name".to_string(),
                    "wallet_call".to_string(),
                    "wallet_call128".to_string(),
                    "wallet_create_canister".to_string(),
                    "wallet_create_canister128".to_string(),
                    "wallet_create_wallet".to_string(),
                    "wallet_create_wallet128".to_string(),
                    "wallet_receive".to_string(),
                    "wallet_send".to_string(),
                    "wallet_send128".to_string(),
                    "wallet_store_wallet_wasm".to_string(),
                ],
                exported_system_functions: vec![
                    "CanisterInit".to_string(),
                    "CanisterPreUpgrade".to_string(),
                    "CanisterPostUpgrade".to_string(),
                ],
                exports_heartbeat: false,
                exports_global_timer: false,
            },
            execution_state: "".to_string(),
            last_full_execution_round: "104".to_string(),
            compute_allocation: "0%".to_string(),
            freeze_threshold: "2592000".to_string(),
            memory_usage: "7345934".to_string(),
            accumulated_priority: "0".to_string(),
            cycles_balance: "93_800_000_000_000".to_string(),
        },

        CanisterInfo {
            canister_id: "bkyz2-fmaaa-aaaaa-qaaaq-cai".to_string(),
            status: "Running".to_string(),
            memory_allocation: "best-effort".to_string(),
            last_execution_round: "0".to_string(),
            controllers: "bnz7o-iuaaa-aaaaa-qaaaa-cai trg6r-vqw4x-tcu5z-pgm4z-nmas4-ailxn-rjavv-zbzhi-jy2oy-wjrpf-hqe".to_string(),
            certified_data_length: "0 bytes".to_string(),
            canister_history_memory_usage: "268 bytes".to_string(),
            execution_state: "".to_string(),
            last_full_execution_round: "0".to_string(),
            exports: Exports {
                exported_query_functions: vec![
                    "__get_candid_interface_tmp_hack".to_string(),
                    "__motoko_stable_var_info".to_string(),
                    "greet".to_string(),
                ],
                exported_update_functions: vec![
                    "__motoko_async_helper".to_string(),
                    "__motoko_gc_trigger".to_string(),
                ],
                exported_system_functions: vec![
                    "CanisterStart".to_string(),
                    "CanisterInit".to_string(),
                    "CanisterPreUpgrade".to_string(),
                    "CanisterPostUpgrade".to_string(),
                    "CanisterGlobalTimer".to_string(),
                ],
                exports_heartbeat: false,
                exports_global_timer: true,
            },
            compute_allocation: "0%".to_string(),
            freeze_threshold: "2592000".to_string(),
            memory_usage: "2294162".to_string(),
            accumulated_priority: "0".to_string(),
            cycles_balance: "3_100_000_000_000".to_string(),
        },
        CanisterInfo {
            canister_id: "bd3sg-teaaa-aaaaa-qaaba-cai".to_string(),
            status: "Running".to_string(),
            memory_allocation: "best-effort".to_string(),
            last_execution_round: "0".to_string(),
            controllers: "bnz7o-iuaaa-aaaaa-qaaaa-cai trg6r-vqw4x-tcu5z-pgm4z-nmas4-ailxn-rjavv-zbzhi-jy2oy-wjrpf-hqe".to_string(),
            certified_data_length: "32 bytes".to_string(),
            canister_history_memory_usage: "268 bytes".to_string(),
            execution_state: "".to_string(),
            last_full_execution_round: "128".to_string(),
            compute_allocation: "0%".to_string(),
            exports: Exports {
                exported_query_functions: vec![
                    "api_version".to_string(),
                    "certified_tree".to_string(),
                    "get".to_string(),
                    "get_asset_properties".to_string(),
                    "get_chunk".to_string(),
                    "http_request".to_string(),
                    "http_request_streaming_callback".to_string(),
                    "list".to_string(),
                    "retrieve".to_string(),
                ],
                exported_update_functions: vec![
                    "authorize".to_string(),
                    "clear".to_string(),
                    "commit_batch".to_string(),
                    "commit_proposed_batch".to_string(),
                    "compute_evidence".to_string(),
                    "configure".to_string(),
                    "create_asset".to_string(),
                    "create_batch".to_string(),
                    "create_chunk".to_string(),
                    "deauthorize".to_string(),
                    "delete_asset".to_string(),
                    "delete_batch".to_string(),
                    "get_configuration".to_string(),
                    "grant_permission".to_string(),
                    "list_authorized".to_string(),
                    "list_permitted".to_string(),
                    "propose_commit_batch".to_string(),
                    "revoke_permission".to_string(),
                    "set_asset_content".to_string(),
                    "set_asset_properties".to_string(),
                    "store".to_string(),
                    "take_ownership".to_string(),
                    "unset_asset_content".to_string(),
                    "validate_commit_proposed_batch".to_string(),
                    "validate_configure".to_string(),
                    "validate_grant_permission".to_string(),
                    "validate_revoke_permission".to_string(),
                    "validate_take_ownership".to_string(),
                ],
                exported_system_functions: vec![
                    "CanisterInit".to_string(),
                    "CanisterPreUpgrade".to_string(),
                    "CanisterPostUpgrade".to_string(),
                ],
                exports_heartbeat: false,
                exports_global_timer: false,
            },
            freeze_threshold: "2592000".to_string(),
            memory_usage: "5023323".to_string(),
            accumulated_priority: "0".to_string(),
            cycles_balance: "3_100_000_000_000".to_string(),
        },
        CanisterInfo {
            canister_id: "be2us-64aaa-aaaaa-qaabq-cai".to_string(),
            status: "Running".to_string(),
            memory_allocation: "best-effort".to_string(),
            last_execution_round: "0".to_string(),
            controllers: "trg6r-vqw4x-tcu5z-pgm4z-nmas4-ailxn-rjavv-zbzhi-jy2oy-wjrpf-hqe".to_string(),
            certified_data_length: "0 bytes".to_string(),
            canister_history_memory_usage: "238 bytes".to_string(),
            execution_state: "".to_string(),
            exports: Exports {
                exported_query_functions: vec![
                    "binding".to_string(),
                    "did_to_js".to_string(),
                    "http_request".to_string(),
                    "merge_init_args".to_string(),
                    "subtype".to_string(),
                ],
                exported_update_functions: vec![],
                exported_system_functions: vec![],
                exports_heartbeat: false,
                exports_global_timer: false,
            },
            last_full_execution_round: "0".to_string(),
            compute_allocation: "0%".to_string(),
            freeze_threshold: "2592000".to_string(),
            memory_usage: "3176904".to_string(),
            accumulated_priority: "0".to_string(),
            cycles_balance: "100_000_000_000_000".to_string(),
        }

        ],
    };
    assert_eq!(parsed.unwrap(), expected);
}

const ANOTHER_HTML: &str = r#"
<!DOCTYPE html>
<!-- saved from url=(0034)http://localhost:56668/_/dashboard -->
<html lang="en"><head><meta http-equiv="Content-Type" content="text/html; charset=UTF-8">

    <title>Internet Computer Replica Dashboard</title>
    <style>
        div {
            margin: 6px;
        }

        h3 {
            margin-block-end: 0;
        }

        .debug {
            background-color: #eef;
            font-family: monospace;
            border: 1px solid #aaf;
        }

        span.debug {
            padding: 4px;
        }

        div.debug {
            display: block;
            padding: 10px;
        }

        td, th {
            padding: 0 10px 2px 0;
            vertical-align: text-top;
        }

        .number {
            text-align: right;
        }

        .text {
            text-align: left;
        }

        .row-separator {
            background-color: #aaf;
            height: 2px;
            padding: 0px;
        }

        .verbose {
            position: absolute;
            font-family: monospace;
            background-color: #ffa;
            border: 1px solid #ff0;
            padding: 4px;
        }
    </style>
</head>
<body data-new-gr-c-s-check-loaded="14.1152.0" data-gr-ext-installed="" data-gr-ext-disabled="forever">
<h1>Internet Computer Replica Dashboard</h1>

<h2>Subnet Settings &amp; Parameters</h2>
<table>
    <tbody><tr>
        <td>Replica Version</td>
        <td class="debug">0.9.0</td>
    </tr>
    <tr>
        <td>Subnet Type</td>
        <td class="debug">Application</td>
    </tr>
    <tr>
        <td>Total Compute Allocation</td>
        <td class="debug">0 %</td>
    </tr>
</tbody></table>
<h2>Http Server Config</h2>
<div class="debug">
    <pre>Config { listen_addr: 127.0.0.1:0, port_file_path: Some("/Users/mnl/Library/Application Support/org.dfinity.dfx/network/local/replica-configuration/replica-1.port"), connection_read_timeout_seconds: 1200, request_timeout_seconds: 300, http_max_concurrent_streams: 256, max_request_size_bytes: 5242880, max_delegation_certificate_size_bytes: 1048576, max_request_receive_seconds: 300, max_read_state_concurrent_requests: 100, max_status_concurrent_requests: 100, max_catch_up_package_concurrent_requests: 100, max_dashboard_concurrent_requests: 100, max_call_concurrent_requests: 50, max_query_concurrent_requests: 400, max_pprof_concurrent_requests: 5 }</pre>
</div>
<h2>Canisters</h2>
<div>Info at height <span class="debug">3662</span></div>
<div class="debug">
<table>
    <tbody><tr>
        <th class="text">Canister id</th>
        <th class="text">Status</th>
        <th class="number">Memory allocation</th>
        <th class="number">Last Execution Round</th>
    </tr>
    <tr class="row-separator">
        <td colspan="100%"></td>
    </tr>

    <tr>
        <td class="text">
            <details>
                <summary>bnz7o-iuaaa-aaaaa-qaaaa-cai</summary>
                <div class="verbose">
                    <h3>System state</h3>
                    <table>
                        <tbody><tr><td>controllers</td><td>trg6r-vqw4x-tcu5z-pgm4z-nmas4-ailxn-rjavv-zbzhi-jy2oy-wjrpf-hqe</td></tr>
                        <tr><td>certified_data length</td><td>32 bytes</td></tr>
                        <tr><td>canister_history_memory_usage</td><td>238 bytes</td></tr>
                    </tbody></table>
                    <h3>Execution state</h3>

                    <table>
                        <tbody><tr><td>canister_root</td><td>NOT_USED/canister_states/80000000001000000101</td></tr>
                        <tr><td>wasm_binary size</td><td>1775104 bytes</td></tr>
                        <tr><td>wasm_binary sha256</td><td>c1290ad65e6c9f840928637ed7672b688216a9c1e919eacbacc22af8c904a5e3</td></tr>
                        <tr><td>heap_size</td><td>85 pages</td></tr>
                        <tr><td>stable_memory_size</td><td>0 pages</td></tr>
                        <tr><td>exports</td><td>


                              ExportedFunctions { exported_functions: {Update("add_address"), Update("add_controller"), Update("authorize"), Update("deauthorize"), Update("remove_address"), Update("remove_controller"), Update("set_name"), Update("set_short_name"), Update("wallet_call"), Update("wallet_call128"), Update("wallet_create_canister"), Update("wallet_create_canister128"), Update("wallet_create_wallet"), Update("wallet_create_wallet128"), Update("wallet_receive"), Update("wallet_send"), Update("wallet_send128"), Update("wallet_store_wallet_wasm"), Query("get_chart"), Query("get_controllers"), Query("get_custodians"), Query("get_events"), Query("get_events128"), Query("get_managed_canister_events"), Query("get_managed_canister_events128"), Query("http_request"), Query("list_addresses"), Query("list_managed_canisters"), Query("name"), Query("wallet_api_version"), Query("wallet_balance"), Query("wallet_balance128"), System(CanisterInit), System(CanisterPreUpgrade), System(CanisterPostUpgrade)}, exports_heartbeat: false, exports_global_timer: false }

                        </td></tr>
                    </tbody></table>

                    <h3>Scheduler state</h3>
                    <table>
                        <tbody><tr><td>last_full_execution_round</td><td>1736</td></tr>
                        <tr><td>compute_allocation</td><td>0%</td></tr>
                        <tr><td>freeze_threshold (seconds)</td><td>2592000</td></tr>
                        <tr><td>memory_usage</td><td>7345934</td></tr>
                        <tr><td>accumulated_priority</td><td>0 </td></tr>
                        <tr><td>Cycles balance</td><td>93_799_340_083_699</td></tr>
                    </tbody></table>
                </div>
            </details>
        </td>
        <td class="text">Running</td>
        <td class="number">
	    best-effort
        </td>
        <td class="number">1736</td>
    </tr>

    <tr>
        <td class="text">
            <details>
                <summary>bkyz2-fmaaa-aaaaa-qaaaq-cai</summary>
                <div class="verbose">
                    <h3>System state</h3>
                    <table>
                        <tbody><tr><td>controllers</td><td>bnz7o-iuaaa-aaaaa-qaaaa-cai trg6r-vqw4x-tcu5z-pgm4z-nmas4-ailxn-rjavv-zbzhi-jy2oy-wjrpf-hqe</td></tr>
                        <tr><td>certified_data length</td><td>0 bytes</td></tr>
                        <tr><td>canister_history_memory_usage</td><td>268 bytes</td></tr>
                    </tbody></table>
                    <h3>Execution state</h3>

                    <table>
                        <tbody><tr><td>canister_root</td><td>NOT_USED/canister_states/80000000001000010101</td></tr>
                        <tr><td>wasm_binary size</td><td>130977 bytes</td></tr>
                        <tr><td>wasm_binary sha256</td><td>2aae403ef7bc3133007567ecb7f7335ebc68d331b28f67e4dde72721f115e5bf</td></tr>
                        <tr><td>heap_size</td><td>33 pages</td></tr>
                        <tr><td>stable_memory_size</td><td>0 pages</td></tr>
                        <tr><td>exports</td><td>


                              ExportedFunctions { exported_functions: {Update("__motoko_async_helper"), Update("__motoko_gc_trigger"), Query("__get_candid_interface_tmp_hack"), Query("__motoko_stable_var_info"), Query("greet"), System(CanisterStart), System(CanisterInit), System(CanisterPreUpgrade), System(CanisterPostUpgrade), System(CanisterGlobalTimer)}, exports_heartbeat: false, exports_global_timer: true }

                        </td></tr>
                    </tbody></table>

                    <h3>Scheduler state</h3>
                    <table>
                        <tbody><tr><td>last_full_execution_round</td><td>0</td></tr>
                        <tr><td>compute_allocation</td><td>0%</td></tr>
                        <tr><td>freeze_threshold (seconds)</td><td>2592000</td></tr>
                        <tr><td>memory_usage</td><td>2294283</td></tr>
                        <tr><td>accumulated_priority</td><td>0 </td></tr>
                        <tr><td>Cycles balance</td><td>3_092_279_190_900</td></tr>
                    </tbody></table>
                </div>
            </details>
        </td>
        <td class="text">Running</td>
        <td class="number">
	    best-effort
        </td>
        <td class="number">0</td>
    </tr>

    <tr>
        <td class="text">
            <details>
                <summary>bd3sg-teaaa-aaaaa-qaaba-cai</summary>
                <div class="verbose">
                    <h3>System state</h3>
                    <table>
                        <tbody><tr><td>controllers</td><td>bnz7o-iuaaa-aaaaa-qaaaa-cai trg6r-vqw4x-tcu5z-pgm4z-nmas4-ailxn-rjavv-zbzhi-jy2oy-wjrpf-hqe</td></tr>
                        <tr><td>certified_data length</td><td>32 bytes</td></tr>
                        <tr><td>canister_history_memory_usage</td><td>268 bytes</td></tr>
                    </tbody></table>
                    <h3>Execution state</h3>

                    <table>
                        <tbody><tr><td>canister_root</td><td>NOT_USED/canister_states/80000000001000020101</td></tr>
                        <tr><td>wasm_binary size</td><td>362850 bytes</td></tr>
                        <tr><td>wasm_binary sha256</td><td>3c86d912ead6de7133b9f787df4ca9feee07bea8835d3ed594b47ee89e6cb730</td></tr>
                        <tr><td>heap_size</td><td>77 pages</td></tr>
                        <tr><td>stable_memory_size</td><td>0 pages</td></tr>
                        <tr><td>exports</td><td>


                              ExportedFunctions { exported_functions: {Update("authorize"), Update("clear"), Update("commit_batch"), Update("commit_proposed_batch"), Update("compute_evidence"), Update("configure"), Update("create_asset"), Update("create_batch"), Update("create_chunk"), Update("deauthorize"), Update("delete_asset"), Update("delete_batch"), Update("get_configuration"), Update("grant_permission"), Update("list_authorized"), Update("list_permitted"), Update("propose_commit_batch"), Update("revoke_permission"), Update("set_asset_content"), Update("set_asset_properties"), Update("store"), Update("take_ownership"), Update("unset_asset_content"), Update("validate_commit_proposed_batch"), Update("validate_configure"), Update("validate_grant_permission"), Update("validate_revoke_permission"), Update("validate_take_ownership"), Query("api_version"), Query("certified_tree"), Query("get"), Query("get_asset_properties"), Query("get_chunk"), Query("http_request"), Query("http_request_streaming_callback"), Query("list"), Query("retrieve"), System(CanisterInit), System(CanisterPreUpgrade), System(CanisterPostUpgrade)}, exports_heartbeat: false, exports_global_timer: false }

                        </td></tr>
                    </tbody></table>

                    <h3>Scheduler state</h3>
                    <table>
                        <tbody><tr><td>last_full_execution_round</td><td>1761</td></tr>
                        <tr><td>compute_allocation</td><td>0%</td></tr>
                        <tr><td>freeze_threshold (seconds)</td><td>2592000</td></tr>
                        <tr><td>memory_usage</td><td>5416539</td></tr>
                        <tr><td>accumulated_priority</td><td>0 </td></tr>
                        <tr><td>Cycles balance</td><td>3_091_813_676_556</td></tr>
                    </tbody></table>
                </div>
            </details>
        </td>
        <td class="text">Running</td>
        <td class="number">
	    best-effort
        </td>
        <td class="number">1761</td>
    </tr>

    <tr>
        <td class="text">
            <details>
                <summary>be2us-64aaa-aaaaa-qaabq-cai</summary>
                <div class="verbose">
                    <h3>System state</h3>
                    <table>
                        <tbody><tr><td>controllers</td><td>trg6r-vqw4x-tcu5z-pgm4z-nmas4-ailxn-rjavv-zbzhi-jy2oy-wjrpf-hqe</td></tr>
                        <tr><td>certified_data length</td><td>0 bytes</td></tr>
                        <tr><td>canister_history_memory_usage</td><td>238 bytes</td></tr>
                    </tbody></table>
                    <h3>Execution state</h3>

                    <table>
                        <tbody><tr><td>canister_root</td><td>NOT_USED/canister_states/80000000001000030101</td></tr>
                        <tr><td>wasm_binary size</td><td>1603770 bytes</td></tr>
                        <tr><td>wasm_binary sha256</td><td>b91e3dd381aedb002633352f8ebad03b6eee330b7e30c3d15a5657e6f428d815</td></tr>
                        <tr><td>heap_size</td><td>24 pages</td></tr>
                        <tr><td>stable_memory_size</td><td>0 pages</td></tr>
                        <tr><td>exports</td><td>


                              ExportedFunctions { exported_functions: {Query("binding"), Query("did_to_js"), Query("http_request"), Query("merge_init_args"), Query("subtype")}, exports_heartbeat: false, exports_global_timer: false }

                        </td></tr>
                    </tbody></table>

                    <h3>Scheduler state</h3>
                    <table>
                        <tbody><tr><td>last_full_execution_round</td><td>0</td></tr>
                        <tr><td>compute_allocation</td><td>0%</td></tr>
                        <tr><td>freeze_threshold (seconds)</td><td>2592000</td></tr>
                        <tr><td>memory_usage</td><td>3176904</td></tr>
                        <tr><td>accumulated_priority</td><td>0 </td></tr>
                        <tr><td>Cycles balance</td><td>99_999_624_176_398</td></tr>
                    </tbody></table>
                </div>
            </details>
        </td>
        <td class="text">Running</td>
        <td class="number">
	    best-effort
        </td>
        <td class="number">0</td>
    </tr>

</tbody></table>
</div>


</body></html>
"#;

#[test]
fn another() {
    

    let parsed = ReplicaInfo::parse_from_html_dashboard(ANOTHER_HTML);
    assert!(parsed.is_ok());
    let expected = ReplicaInfo {
        replica_version: "0.9.0".to_string(),
        subnet_type: "Application".to_string(),
        total_compute_allocation: "0 %".to_string(),
        http_server_config: "Config { listen_addr: 127.0.0.1:0, port_file_path: Some(\"/Users/mnl/Library/Application Support/org.dfinity.dfx/network/local/replica-configuration/replica-1.port\"), connection_read_timeout_seconds: 1200, request_timeout_seconds: 300, http_max_concurrent_streams: 256, max_request_size_bytes: 5242880, max_delegation_certificate_size_bytes: 1048576, max_request_receive_seconds: 300, max_read_state_concurrent_requests: 100, max_status_concurrent_requests: 100, max_catch_up_package_concurrent_requests: 100, max_dashboard_concurrent_requests: 100, max_call_concurrent_requests: 50, max_query_concurrent_requests: 400, max_pprof_concurrent_requests: 5 }".into(),
        canisters: vec![CanisterInfo {
            canister_id: "bnz7o-iuaaa-aaaaa-qaaaa-cai".to_string(),
            status: "Running".to_string(),
            memory_allocation: "best-effort".to_string(),
            last_execution_round: "0".to_string(),
            controllers: "trg6r-vqw4x-tcu5z-pgm4z-nmas4-ailxn-rjavv-zbzhi-jy2oy-wjrpf-hqe"
                .to_string(),
            certified_data_length: "32 bytes".to_string(),
            canister_history_memory_usage: "238 bytes".to_string(),
            execution_state: "".to_string(),
            last_full_execution_round: "1736".to_string(),
            exports: Exports {
                exported_query_functions: vec![
                    "get_chart".to_string(),
                    "get_controllers".to_string(),
                    "get_custodians".to_string(),
                    "get_events".to_string(),
                    "get_events128".to_string(),
                    "get_managed_canister_events".to_string(),
                    "get_managed_canister_events128".to_string(),
                    "http_request".to_string(),
                    "list_addresses".to_string(),
                    "list_managed_canisters".to_string(),
                    "name".to_string(),
                    "wallet_api_version".to_string(),
                    "wallet_balance".to_string(),
                    "wallet_balance128".to_string(),
                ],
                exported_update_functions: vec![
                    "add_address".to_string(),
                    "add_controller".to_string(),
                    "authorize".to_string(),
                    "deauthorize".to_string(),
                    "remove_address".to_string(),
                    "remove_controller".to_string(),
                    "set_name".to_string(),
                    "set_short_name".to_string(),
                    "wallet_call".to_string(),
                    "wallet_call128".to_string(),
                    "wallet_create_canister".to_string(),
                    "wallet_create_canister128".to_string(),
                    "wallet_create_wallet".to_string(),
                    "wallet_create_wallet128".to_string(),
                    "wallet_receive".to_string(),
                    "wallet_send".to_string(),
                    "wallet_send128".to_string(),
                    "wallet_store_wallet_wasm".to_string(),
                ],
                exported_system_functions: vec![
                    "CanisterInit".to_string(),
                    "CanisterPreUpgrade".to_string(),
                    "CanisterPostUpgrade".to_string(),
                ],
                exports_heartbeat: false,
                exports_global_timer: false,
            },
            compute_allocation: "0%".to_string(),
            freeze_threshold: "2592000".to_string(),
            memory_usage: "7345934".to_string(),
            accumulated_priority: "0".to_string(),
            cycles_balance: "93_799_340_083_699".to_string(),
        },

        CanisterInfo {
            canister_id: "bkyz2-fmaaa-aaaaa-qaaaq-cai".to_string(),
            status: "Running".to_string(),
            memory_allocation: "best-effort".to_string(),
            last_execution_round: "0".to_string(),
            exports: Exports {
                exported_query_functions: vec![
                    "__get_candid_interface_tmp_hack".to_string(),
                    "__motoko_stable_var_info".to_string(),
                    "greet".to_string(),
                ],
                exported_update_functions: vec![
                    "__motoko_async_helper".to_string(),
                    "__motoko_gc_trigger".to_string(),
                ],
                exported_system_functions: vec![
                    "CanisterStart".to_string(),
                    "CanisterInit".to_string(),
                    "CanisterPreUpgrade".to_string(),
                    "CanisterPostUpgrade".to_string(),
                    "CanisterGlobalTimer".to_string(),
                ],
                exports_heartbeat: false,
                exports_global_timer: true,
            },
            controllers: "bnz7o-iuaaa-aaaaa-qaaaa-cai trg6r-vqw4x-tcu5z-pgm4z-nmas4-ailxn-rjavv-zbzhi-jy2oy-wjrpf-hqe".to_string(),
            certified_data_length: "0 bytes".to_string(),
            canister_history_memory_usage: "268 bytes".to_string(),
            execution_state: "".to_string(),
            last_full_execution_round: "0".to_string(),
            compute_allocation: "0%".to_string(),
            freeze_threshold: "2592000".to_string(),
            memory_usage: "2294283".to_string(),
            accumulated_priority: "0".to_string(),
            cycles_balance: "3_092_279_190_900".to_string(),
        },
        CanisterInfo {
            canister_id: "bd3sg-teaaa-aaaaa-qaaba-cai".to_string(),
            status: "Running".to_string(),
            memory_allocation: "best-effort".to_string(),
            last_execution_round: "0".to_string(),
            controllers: "bnz7o-iuaaa-aaaaa-qaaaa-cai trg6r-vqw4x-tcu5z-pgm4z-nmas4-ailxn-rjavv-zbzhi-jy2oy-wjrpf-hqe".to_string(),
            certified_data_length: "32 bytes".to_string(),
            canister_history_memory_usage: "268 bytes".to_string(),
            execution_state: "".to_string(),
            exports: Exports {
                exported_query_functions: vec![
                    "api_version".to_string(),
                    "certified_tree".to_string(),
                    "get".to_string(),
                    "get_asset_properties".to_string(),
                    "get_chunk".to_string(),
                    "http_request".to_string(),
                    "http_request_streaming_callback".to_string(),
                    "list".to_string(),
                    "retrieve".to_string(),
                ],
                exported_update_functions: vec![
                    "authorize".to_string(),
                    "clear".to_string(),
                    "commit_batch".to_string(),
                    "commit_proposed_batch".to_string(),
                    "compute_evidence".to_string(),
                    "configure".to_string(),
                    "create_asset".to_string(),
                    "create_batch".to_string(),
                    "create_chunk".to_string(),
                    "deauthorize".to_string(),
                    "delete_asset".to_string(),
                    "delete_batch".to_string(),
                    "get_configuration".to_string(),
                    "grant_permission".to_string(),
                    "list_authorized".to_string(),
                    "list_permitted".to_string(),
                    "propose_commit_batch".to_string(),
                    "revoke_permission".to_string(),
                    "set_asset_content".to_string(),
                    "set_asset_properties".to_string(),
                    "store".to_string(),
                    "take_ownership".to_string(),
                    "unset_asset_content".to_string(),
                    "validate_commit_proposed_batch".to_string(),
                    "validate_configure".to_string(),
                    "validate_grant_permission".to_string(),
                    "validate_revoke_permission".to_string(),
                    "validate_take_ownership".to_string(),
                ],
                exported_system_functions: vec![
                    "CanisterInit".to_string(),
                    "CanisterPreUpgrade".to_string(),
                    "CanisterPostUpgrade".to_string(),
                ],
                exports_heartbeat: false,
                exports_global_timer: false,
            },
            last_full_execution_round: "1761".to_string(),
            compute_allocation: "0%".to_string(),
            freeze_threshold: "2592000".to_string(),
            memory_usage: "5416539".to_string(),
            accumulated_priority: "0".to_string(),
            cycles_balance: "3_091_813_676_556".to_string(),
        },
        CanisterInfo {
            canister_id: "be2us-64aaa-aaaaa-qaabq-cai".to_string(),
            status: "Running".to_string(),
            memory_allocation: "best-effort".to_string(),
            last_execution_round: "0".to_string(),
            controllers: "trg6r-vqw4x-tcu5z-pgm4z-nmas4-ailxn-rjavv-zbzhi-jy2oy-wjrpf-hqe".to_string(),
            certified_data_length: "0 bytes".to_string(),
            exports: Exports {
                exported_query_functions: vec![
                    "binding".to_string(),
                    "did_to_js".to_string(),
                    "http_request".to_string(),
                    "merge_init_args".to_string(),
                    "subtype".to_string(),
                ],
                exported_update_functions: vec![],
                exported_system_functions: vec![],
                exports_heartbeat: false,
                exports_global_timer: false,
            },
            canister_history_memory_usage: "238 bytes".to_string(),
            execution_state: "".to_string(),
            last_full_execution_round: "0".to_string(),
            compute_allocation: "0%".to_string(),
            freeze_threshold: "2592000".to_string(),
            memory_usage: "3176904".to_string(),
            accumulated_priority: "0".to_string(),
            cycles_balance: "99_999_624_176_398".to_string(),
        }

        ],
    };
    assert_eq!(parsed.unwrap(), expected);
}
