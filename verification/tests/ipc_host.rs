use openconnect_core::config::{ConfigBuilder, EntrypointBuilder, LogLevel};
use openconnect_core::get_sock;
use openconnect_core::host::{ConnRequest, HostState};
use openconnect_core::ipc::{bind_guard, encode_frame, parse_frame, JsonResponse, SockError};
use openconnect_core::session::VpnClient;
use openconnect_core::storage::{PasswordServer, StoredConfigs, StoredServer};

#[test]
fn the_endpoint_path_is_fixed() {
    assert_eq!(get_sock(), "/tmp/openconnect-rs.sock");
}

#[test]
fn an_existing_endpoint_blocks_binding() {
    // A stale or live endpoint path must never be taken over silently.
    assert!(matches!(bind_guard(true), Err(SockError::AddressInUse)));
    assert!(bind_guard(false).is_ok());
}

#[test]
fn frames_round_trip() {
    let payload = b"{\"Info\":null}".to_vec();
    let mut framed = encode_frame(&payload);
    assert_eq!(framed.len(), payload.len() + 4);
    // Trailing bytes of the next frame do not disturb the first.
    framed.push(0xAA);
    let (decoded, consumed) = parse_frame(&framed).unwrap();
    assert_eq!(decoded, payload);
    assert_eq!(consumed, payload.len() + 4);
}

#[test]
fn incomplete_frames_wait_for_more() {
    // Too short for a header.
    assert!(parse_frame(&vec![0, 0, 1]).is_none());
    // Header announces more than arrived.
    assert!(parse_frame(&vec![0, 0, 0, 5, 1, 2]).is_none());
    // Exactly complete.
    let (p, consumed) = parse_frame(&vec![0, 0, 0, 2, 9, 8]).unwrap();
    assert_eq!(p, vec![9, 8]);
    assert_eq!(consumed, 6);
    // An empty payload is a valid frame.
    let (p, consumed) = parse_frame(&vec![0, 0, 0, 0]).unwrap();
    assert!(p.is_empty());
    assert_eq!(consumed, 4);
}

fn stored_corp_profile(store: &mut StoredConfigs) {
    store.upsert_server(StoredServer::Password(PasswordServer {
        name: "corp".to_string(),
        server: "vpn.example.com".to_string(),
        username: "alice".to_string(),
        password: Some("hunter2".to_string()),
        allow_insecure: Some(false),
        updated_at: None,
    }));
}

/// A stored password profile is read, decrypted and connected; `Info`
/// then reports the connected session under its profile name.
#[test]
fn stored_profile_connects_and_reports() {
    let mut store = StoredConfigs::new(Some("scenario key".to_string()));
    stored_corp_profile(&mut store);

    // The daemon resolves and decrypts the profile for the connect attempt.
    let profile = store.get_server_as_password_server("corp").unwrap();
    let profile = profile.decrypted_by(&store.cipher);
    assert_eq!(profile.password.as_deref(), Some("hunter2"));

    let config = ConfigBuilder::default()
        .vpncscript("/usr/local/bin/vpnc-script")
        .loglevel(LogLevel::Info)
        .build()
        .unwrap();
    let entrypoint = EntrypointBuilder::new()
        .name(&profile.name)
        .server(&profile.server)
        .username(&profile.username)
        .password(&profile.password.clone().unwrap())
        .accept_insecure_cert(profile.allow_insecure.unwrap_or(false))
        .enable_udp(true)
        .build()
        .unwrap();

    let mut client = VpnClient::new(config);
    client.begin_connect(entrypoint).unwrap();
    client.on_cmd_pipe(9).unwrap();
    client.set_hostname(Some("vpn.example.com".to_string()));
    let stage = VpnClient::obtain_cookie_stage(&client.get_hostname());
    assert_eq!(stage, "Obtaining cookie from: vpn.example.com");
    client.advance_stage(&stage);
    client.complete_connect();

    let mut host = HostState::new();
    let (resp, act) = host.handle_start("corp".to_string(), Ok(client));
    assert!(act.is_none());
    match resp {
        JsonResponse::StartResult { name, success, err_message } => {
            assert_eq!(name, "corp");
            assert!(success);
            assert!(err_message.is_none());
        },
        _ => panic!("a start must be answered by a start result"),
    }

    let resp = host.handle_info(None);
    match resp {
        JsonResponse::InfoResult { server_name, server_url, hostname, status, info } => {
            assert_eq!(server_name, "corp");
            assert_eq!(server_url, "vpn.example.com");
            assert_eq!(hostname, "vpn.example.com");
            assert_eq!(status, "Connected");
            assert!(info.is_none());
        },
        _ => panic!("an info must be answered by an info result"),
    }
}

#[test]
fn start_failure_reports_the_message() {
    let mut host = HostState::new();
    let (resp, act) = host.handle_start("corp".to_string(), Err("no cookie".to_string()));
    assert!(act.is_none());
    match resp {
        JsonResponse::StartResult { name, success, err_message } => {
            assert_eq!(name, "corp");
            assert!(!success);
            assert_eq!(err_message.as_deref(), Some("no cookie"));
        },
        _ => panic!("a start must be answered by a start result"),
    }
}

#[test]
fn stop_without_a_session_answers_an_empty_name() {
    let mut host = HostState::new();
    let (resp, action) = host.handle_stop();
    assert!(action.is_none());
    match resp {
        JsonResponse::StopResult { name } => assert_eq!(name, ""),
        _ => panic!("a stop must be answered by a stop result"),
    }
}

#[test]
fn info_without_a_session_reports_initialized() {
    let host = HostState::new();
    match host.handle_info(None) {
        JsonResponse::InfoResult { server_name, status, info, .. } => {
            assert_eq!(server_name, "");
            assert_eq!(status, "Initialized");
            assert!(info.is_none());
        },
        _ => panic!("an info must be answered by an info result"),
    }
}

fn connected_client(name: &str) -> VpnClient {
    let config = ConfigBuilder::default().build().unwrap();
    let entrypoint = EntrypointBuilder::new()
        .name(name)
        .server("vpn.example.com")
        .build()
        .unwrap();
    let mut client = VpnClient::new(config);
    client.begin_connect(entrypoint).unwrap();
    client.on_cmd_pipe(11).unwrap();
    client.complete_connect();
    client
}

/// `Info` then `Stop` on one connection: responses come back in exactly
/// that order, whatever the stop's own work costs.
#[test]
fn responses_keep_request_order() {
    let mut host = HostState::new();
    host.handle_start("corp".to_string(), Ok(connected_client("corp")));

    let out = host.handle_connection(vec![
        ConnRequest::Info { info: None },
        ConnRequest::Stop,
    ]);
    assert_eq!(out.len(), 2);
    match &out[0].0 {
        JsonResponse::InfoResult { server_name, status, .. } => {
            assert_eq!(server_name, "corp");
            assert_eq!(status, "Connected");
        },
        _ => panic!("the first response must answer the first request"),
    }
    assert!(out[0].1.is_none());
    match &out[1].0 {
        JsonResponse::StopResult { name } => assert_eq!(name, "corp"),
        _ => panic!("the second response must answer the second request"),
    }
    // The stop of a connected session writes the cancel byte.
    let action = out[1].1.unwrap();
    assert_eq!(action.fd, 11);
    assert_eq!(action.byte, b'x');
}

#[test]
fn a_started_session_supersedes_the_old_one() {
    let mut host = HostState::new();
    let (_, act) = host.handle_start("first".to_string(), Ok(connected_client("first")));
    assert!(act.is_none());
    // Superseding a connected session asks it to disconnect on its way out.
    let (_, act) = host.handle_start("second".to_string(), Ok(connected_client("second")));
    let act = act.unwrap();
    assert_eq!(act.byte, b'x');
    match host.handle_info(None) {
        JsonResponse::InfoResult { server_name, .. } => assert_eq!(server_name, "second"),
        _ => panic!("an info must be answered by an info result"),
    }
    let (resp, _) = host.handle_stop();
    match resp {
        JsonResponse::StopResult { name } => assert_eq!(name, "second"),
        _ => panic!("a stop must be answered by a stop result"),
    }
    // The slot is now empty.
    match host.handle_info(None) {
        JsonResponse::InfoResult { status, .. } => assert_eq!(status, "Initialized"),
        _ => panic!("an info must be answered by an info result"),
    }
}
