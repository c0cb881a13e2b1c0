use omp_launcher::codec::Ipv4Octets;
use omp_launcher::errors::LauncherError;
use omp_launcher::errors::classify_process_error;
use omp_launcher::launcher::build_launch_args;
use omp_launcher::launcher::target_game_exe;
use omp_launcher::presence::extract_launch_params;
use omp_launcher::presence::toggle_drpc;
use omp_launcher::presence::PresenceState;
use omp_launcher::rpc::RpcCall;
use omp_launcher::rpc::RpcMethod;
use omp_launcher::rpc::StorageCall;
use omp_launcher::session::classify_host;
use omp_launcher::session::endpoint_key;
use omp_launcher::session::HostClass;
use omp_launcher::strutil::i32_to_dec_string;
use omp_launcher::strutil::u32_to_dec_string;

#[test]
fn dotted_quads_are_used_directly() {
    assert_eq!(
        classify_host("127.0.0.1"),
        HostClass::Ipv4Literal(Ipv4Octets { a: 127, b: 0, c: 0, d: 1 })
    );
    assert_eq!(
        classify_host("255.255.255.255"),
        HostClass::Ipv4Literal(Ipv4Octets { a: 255, b: 255, c: 255, d: 255 })
    );
    assert_eq!(
        classify_host("0.0.0.0"),
        HostClass::Ipv4Literal(Ipv4Octets { a: 0, b: 0, c: 0, d: 0 })
    );
}

#[test]
fn out_of_range_octet_goes_to_dns() {
    assert_eq!(classify_host("256.1.1.1"), HostClass::Hostname);
    assert_eq!(classify_host("300.1.1.1"), HostClass::Hostname);
}

#[test]
fn names_and_malformed_quads_go_to_dns() {
    assert_eq!(classify_host("play.example.com"), HostClass::Hostname);
    assert_eq!(classify_host("1.2.3"), HostClass::Hostname);
    assert_eq!(classify_host("1.2.3.4.5"), HostClass::Hostname);
    assert_eq!(classify_host("1.2.3."), HostClass::Hostname);
    assert_eq!(classify_host(""), HostClass::Hostname);
    assert_eq!(classify_host("1..2.3"), HostClass::Hostname);
}

#[test]
fn leading_zero_quad_is_invalid_not_resolved() {
    assert_eq!(classify_host("127.0.0.01"), HostClass::Ipv4Invalid);
    assert_eq!(classify_host("010.1.1.1"), HostClass::Ipv4Invalid);
}

#[test]
fn endpoint_key_is_host_colon_port() {
    assert_eq!(endpoint_key("127.0.0.1", 7777), "127.0.0.1:7777");
    assert_eq!(endpoint_key("play.example.com", 80), "play.example.com:80");
}

#[test]
fn decimal_rendering() {
    assert_eq!(u32_to_dec_string(0), "0");
    assert_eq!(u32_to_dec_string(65535), "65535");
    assert_eq!(u32_to_dec_string(1000), "1000");
    assert_eq!(i32_to_dec_string(-42), "-42");
    assert_eq!(i32_to_dec_string(i32::MIN), "-2147483648");
    assert_eq!(i32_to_dec_string(7), "7");
}

#[test]
fn launch_args_without_password() {
    let v = build_launch_args("Kalle", "127.0.0.1", 7777, "");
    assert_eq!(v, vec!["-c", "-n", "Kalle", "-h", "127.0.0.1", "-p", "7777"]);
}

#[test]
fn launch_args_with_password() {
    let v = build_launch_args("Kalle", "127.0.0.1", 7777, "hunter2");
    assert_eq!(v, vec!["-c", "-n", "Kalle", "-h", "127.0.0.1", "-p", "7777", "-z", "hunter2"]);
}

#[test]
fn custom_game_exe_overrides_stock() {
    assert_eq!(target_game_exe(""), "gta_sa.exe");
    assert_eq!(target_game_exe("gta_sa_custom.exe"), "gta_sa_custom.exe");
}

#[test]
fn spawn_error_classification() {
    assert!(matches!(
        classify_process_error(Some(5), "access denied"),
        LauncherError::AccessDenied(_)
    ));
    match classify_process_error(Some(740), "elevation required") {
        LauncherError::AccessDenied(m) => assert_eq!(m, "Unable to open game process"),
        _ => panic!("expected AccessDenied"),
    }
    match classify_process_error(Some(2), "file not found") {
        LauncherError::Process(m) => assert_eq!(m, "file not found"),
        _ => panic!("expected Process"),
    }
    assert!(matches!(classify_process_error(None, "x"), LauncherError::Process(_)));
}

#[test]
fn error_rendering() {
    let e = LauncherError::Network("Query timeout".to_string());
    assert_eq!(e.to_display_string(), "Network error: Query timeout");
    assert_eq!(e.to_ui_string(), "Network error: Query timeout");
    let e = LauncherError::AccessDenied("no handle".to_string());
    assert_eq!(
        e.to_display_string(),
        "Access denied - administrator privileges required: no handle"
    );
    assert_eq!(e.to_ui_string(), "need_admin");
}

#[test]
fn presence_toggle_reports_when_to_start() {
    let mut st = PresenceState { enabled: false };
    assert!(toggle_drpc(&mut st, true));
    assert!(st.enabled);
    assert!(!toggle_drpc(&mut st, false));
    assert!(!st.enabled);
}

#[test]
fn launch_params_read_from_process_args() {
    let args: Vec<String> = vec![
        "gta_sa.exe", "-c", "-n", "Kalle", "-h", "127.0.0.1", "-p", "7777",
    ]
    .into_iter()
    .map(|s| s.to_string())
    .collect();
    let p = extract_launch_params(&args);
    assert_eq!(p.name.as_deref(), Some("Kalle"));
    assert_eq!(p.host.as_deref(), Some("127.0.0.1"));
    assert_eq!(p.port.as_deref(), Some("7777"));
}

#[test]
fn launch_params_last_flag_wins_and_dangling_flag_has_no_value() {
    let args: Vec<String> = vec!["exe", "-n", "A", "-n", "B", "-h"]
        .into_iter()
        .map(|s| s.to_string())
        .collect();
    let p = extract_launch_params(&args);
    assert_eq!(p.name.as_deref(), Some("B"));
    assert_eq!(p.host, None);
    assert_eq!(p.port, None);
}

#[test]
fn rpc_method_routing() {
    let m = RpcMethod { method: "get_checksum_of_files".to_string() };
    assert_eq!(m.classify(), RpcCall::GetChecksumOfFiles);
    let m = RpcMethod { method: "extract_7z".to_string() };
    assert_eq!(m.classify(), RpcCall::Extract7z);
    let m = RpcMethod { method: "copy_files_to_gtasa".to_string() };
    assert_eq!(m.classify(), RpcCall::CopyFilesToGtaSa);
    let m = RpcMethod { method: "storage_get_item".to_string() };
    assert_eq!(m.classify(), RpcCall::Unknown);
}

#[test]
fn storage_method_routing() {
    let cases = vec![
        ("storage_get_item", StorageCall::GetItem),
        ("storage_set_item", StorageCall::SetItem),
        ("storage_remove_item", StorageCall::RemoveItem),
        ("storage_get_all_items", StorageCall::GetAllItems),
        ("storage_clear", StorageCall::Clear),
        ("extract_7z", StorageCall::Unknown),
    ];
    for (name, expected) in cases {
        let m = RpcMethod { method: name.to_string() };
        assert_eq!(m.classify_storage(), expected);
    }
}
