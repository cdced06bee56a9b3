use openconnect_core::command::{command_for_signal, Command, SIGHUP, SIGINT, SIGTERM, SIGUSR1, SIGUSR2};
use openconnect_core::config::{ConfigBuilder, EntrypointBuilder, LogLevel};
use openconnect_core::result::OpenconnectError;
use openconnect_core::session::{ConnectStage, Status, VpnClient};
use openconnect_core::token::{Token, TokenMode};

fn test_client() -> VpnClient {
    let config = ConfigBuilder::default()
        .vpncscript("/usr/local/bin/vpnc-script")
        .loglevel(LogLevel::Info)
        .build()
        .unwrap();
    VpnClient::new(config)
}

fn connected_client() -> VpnClient {
    let mut client = test_client();
    let entrypoint = EntrypointBuilder::new()
        .name("corp")
        .server("vpn.example.com")
        .username("alice")
        .password("hunter2")
        .enable_udp(true)
        .build()
        .unwrap();
    client.begin_connect(entrypoint).unwrap();
    client.on_cmd_pipe(7).unwrap();
    client.complete_connect();
    client
}

#[test]
fn new_client_is_initialized() {
    let client = test_client();
    assert!(matches!(client.get_status(), Status::Initialized));
    assert!(client.get_server_name().is_none());
    assert!(client.get_server_url().is_none());
}

#[test]
fn disconnect_from_initialized_is_a_no_op() {
    let mut client = test_client();
    let action = client.disconnect();
    assert!(action.is_none());
    assert!(matches!(client.get_status(), Status::Initialized));
}

#[test]
fn connect_walks_the_stages() {
    let mut client = test_client();
    let entrypoint = EntrypointBuilder::new()
        .name("corp")
        .server("vpn.example.com")
        .build()
        .unwrap();
    client.begin_connect(entrypoint).unwrap();
    match client.get_status() {
        Status::Connecting(stage) => assert_eq!(stage, "Initializing connection"),
        _ => panic!("connect must enter the first connecting stage"),
    }
    client.advance_to(ConnectStage::SystemPipe);
    match client.get_status() {
        Status::Connecting(stage) => assert_eq!(stage, "Setting up system pipe"),
        _ => panic!("stage advance must stay in connecting"),
    }
    client.advance_to(ConnectStage::ParseUrl);
    let stage = VpnClient::obtain_cookie_stage(&Some("vpn.example.com".to_string()));
    assert_eq!(stage, "Obtaining cookie from: vpn.example.com");
    client.advance_stage(&stage);
    match client.get_status() {
        Status::Connecting(s) => assert_eq!(s, "Obtaining cookie from: vpn.example.com"),
        _ => panic!("stage advance must stay in connecting"),
    }
    client.complete_connect();
    assert!(matches!(client.get_status(), Status::Connected));
    assert_eq!(client.get_server_name().as_deref(), Some("corp"));
    assert_eq!(client.get_server_url().as_deref(), Some("vpn.example.com"));
}

#[test]
fn connect_is_guarded_by_state() {
    let mut client = test_client();
    let e1 = EntrypointBuilder::new().server("a.example.com").build().unwrap();
    let e2 = EntrypointBuilder::new().server("b.example.com").build().unwrap();
    client.begin_connect(e1).unwrap();
    // Connecting: a second connect attempt is refused and changes nothing.
    let refused = client.begin_connect(e2);
    assert!(matches!(refused, Err(OpenconnectError::OtherError(_))));
    assert!(matches!(client.get_status(), Status::Connecting(_)));
}

#[test]
fn disconnect_then_loop_exit_reaches_disconnected() {
    let mut client = connected_client();
    let action = client.disconnect().unwrap();
    assert_eq!(action.fd, 7);
    assert_eq!(action.byte, b'x');
    assert!(matches!(client.get_status(), Status::Disconnecting));
    let reset = client.on_loop_exit();
    assert!(!reset);
    assert!(matches!(client.get_status(), Status::Disconnected));
    // A fresh connect attempt may start again from here.
    let e = EntrypointBuilder::new().server("vpn.example.com").build().unwrap();
    client.begin_connect(e).unwrap();
    assert!(matches!(client.get_status(), Status::Connecting(_)));
}

#[test]
fn cancel_send_is_idempotent() {
    let mut client = connected_client();
    let first = client.send_command(Command::Cancel);
    let second = client.send_command(Command::Cancel);
    assert!(first.is_some());
    assert_eq!(first.unwrap().byte, 120);
    assert!(second.is_none());
}

#[test]
fn disconnect_twice_is_safe() {
    let mut client = connected_client();
    let first = client.disconnect();
    assert!(first.is_some());
    let second = client.disconnect();
    assert!(second.is_none());
    assert!(matches!(client.get_status(), Status::Disconnecting));
}

#[test]
fn non_cancel_commands_keep_the_descriptor() {
    let mut client = connected_client();
    let stats = client.send_command(Command::Stats).unwrap();
    assert_eq!(stats.byte, b'S');
    let pause = client.send_command(Command::Pause).unwrap();
    assert_eq!(pause.byte, b'p');
    let detach = client.send_command(Command::Detach).unwrap();
    assert_eq!(detach.byte, b'D');
    // The descriptor is still there for the cancel itself.
    assert!(client.send_command(Command::Cancel).is_some());
}

#[test]
fn bad_command_pipe_is_an_error() {
    let mut client = test_client();
    let r = client.on_cmd_pipe(-1);
    assert!(matches!(r, Err(OpenconnectError::CmdPipeError(-1))));
    // With no descriptor, nothing can be sent.
    assert!(client.send_command(Command::Cancel).is_none());
}

#[test]
fn engine_failure_enters_error_state_and_allows_retry() {
    let mut client = test_client();
    let e = EntrypointBuilder::new().server("vpn.example.com").build().unwrap();
    client.begin_connect(e).unwrap();
    client.emit_error(OpenconnectError::ObtainCookieError(-5));
    assert!(matches!(client.get_status(), Status::Error(OpenconnectError::ObtainCookieError(-5))));
    assert_eq!(client.get_status().status_string(), "Error");
    let again = EntrypointBuilder::new().server("vpn.example.com").build().unwrap();
    client.begin_connect(again).unwrap();
    assert!(matches!(client.get_status(), Status::Connecting(_)));
}

#[test]
fn status_strings_match_the_wire_words() {
    assert_eq!(Status::Initialized.status_string(), "Initialized");
    assert_eq!(Status::Disconnecting.status_string(), "Disconnecting");
    assert_eq!(Status::Disconnected.status_string(), "Disconnected");
    assert_eq!(Status::Connecting("x".to_string()).status_string(), "Connecting");
    assert_eq!(Status::Connected.status_string(), "Connected");
}

#[test]
fn text_input_answers_username_fields_only() {
    let mut client = test_client();
    let e = EntrypointBuilder::new()
        .server("vpn.example.com")
        .username("alice")
        .password("hunter2")
        .build()
        .unwrap();
    client.begin_connect(e).unwrap();
    assert_eq!(client.handle_text_input("username").as_deref(), Some("alice"));
    assert_eq!(client.handle_text_input("user").as_deref(), Some("alice"));
    assert_eq!(client.handle_text_input("uname").as_deref(), Some("alice"));
    assert!(client.handle_text_input("domain").is_none());
    assert_eq!(client.handle_password_input().as_deref(), Some("hunter2"));
}

#[test]
fn certificate_cache_remembers_acceptance() {
    let mut client = test_client();
    let host = Some("vpn.example.com".to_string());
    assert!(!client.is_cert_accepted("sha256:abcd", &host, 443));
    client.remember_cert("sha256:abcd".to_string(), host.clone(), 443);
    assert!(client.is_cert_accepted("sha256:abcd", &host, 443));
    // Port zero on the peer side matches any cached port.
    assert!(client.is_cert_accepted("sha256:abcd", &host, 0));
    // A different fingerprint is not covered.
    assert!(!client.is_cert_accepted("sha256:ffff", &host, 443));
    // A peer without a host constraint matches any cache entry host.
    assert!(client.is_cert_accepted("sha256:abcd", &None, 443));
}

#[test]
fn cert_validation_checks_cache_then_policy() {
    // Without a permissive entrypoint, an unknown certificate is refused
    // (the embedder may still ask its interactive callback).
    let mut strict = test_client();
    let e = EntrypointBuilder::new().server("vpn.example.com").build().unwrap();
    strict.begin_connect(e).unwrap();
    let host = Some("vpn.example.com".to_string());
    assert!(!strict.check_peer_cert("sha256:abcd".to_string(), host.clone(), 443));
    // A recorded interactive acceptance covers the next round.
    strict.remember_cert("sha256:abcd".to_string(), host.clone(), 443);
    assert!(strict.check_peer_cert("sha256:abcd".to_string(), host.clone(), 443));

    // A permissive entrypoint accepts and caches on first sight.
    let mut lax = test_client();
    let e = EntrypointBuilder::new()
        .server("vpn.example.com")
        .accept_insecure_cert(true)
        .build()
        .unwrap();
    lax.begin_connect(e).unwrap();
    assert!(lax.check_peer_cert("sha256:ffff".to_string(), host.clone(), 443));
    assert!(lax.is_cert_accepted("sha256:ffff", &host, 443));
}

#[test]
fn insecure_cert_policy_comes_from_the_entrypoint() {
    let mut client = test_client();
    assert!(!client.handle_accept_insecure_cert());
    let e = EntrypointBuilder::new()
        .server("vpn.example.com")
        .accept_insecure_cert(true)
        .build()
        .unwrap();
    client.begin_connect(e).unwrap();
    assert!(client.handle_accept_insecure_cert());
}

#[test]
fn signals_map_to_commands() {
    assert!(matches!(command_for_signal(SIGINT), Some(Command::Cancel)));
    assert!(matches!(command_for_signal(SIGTERM), Some(Command::Cancel)));
    assert!(matches!(command_for_signal(SIGHUP), Some(Command::Detach)));
    assert!(matches!(command_for_signal(SIGUSR2), Some(Command::Pause)));
    assert!(matches!(command_for_signal(SIGUSR1), Some(Command::Stats)));
    assert!(command_for_signal(23).is_none());
}

#[test]
fn builders_apply_defaults() {
    let config = ConfigBuilder::new().build().unwrap();
    assert!(matches!(config.loglevel, LogLevel::Info));
    assert!(config.vpncscript.is_none());
    assert!(!config.reset_ssl_on_disconnect);

    let e = EntrypointBuilder::new().server("vpn.example.com").build().unwrap();
    assert_eq!(e.protocol.name, "anyconnect");
    assert!(e.enable_udp);
    assert!(!e.accept_insecure_cert);
    assert!(e.cookie.is_none());

    // A missing server is the one way to fail.
    assert!(matches!(
        EntrypointBuilder::new().name("x").build(),
        Err(OpenconnectError::EntrypointConfigError(_))
    ));
}

#[test]
fn only_the_oidc_token_mode_is_supported() {
    assert!(TokenMode::OIDC.is_supported());
    assert!(!TokenMode::TOTP.is_supported());
    assert!(!TokenMode::HOTP.is_supported());
    let token = Token { mode: TokenMode::OIDC, value: Some("tok".to_string()) };
    assert!(token.mode.is_supported());
}

#[test]
fn log_levels_carry_engine_values() {
    assert_eq!(LogLevel::Error.level_value(), 0);
    assert_eq!(LogLevel::Info.level_value(), 1);
    assert_eq!(LogLevel::Debug.level_value(), 2);
    assert_eq!(LogLevel::Trace.level_value(), 3);
}

#[test]
fn loop_exit_reports_the_reset_choice() {
    let config = ConfigBuilder::new()
        .reset_ssl_on_disconnect(true)
        .build()
        .unwrap();
    let mut client = VpnClient::new(config);
    let e = EntrypointBuilder::new().server("vpn.example.com").build().unwrap();
    client.begin_connect(e).unwrap();
    client.complete_connect();
    client.disconnect();
    let reset = client.on_loop_exit();
    assert!(reset);
}
