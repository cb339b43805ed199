use rcon_control::codec::RconError;
use rcon_control::codec::RconPacket;
use rcon_control::manager::ConnectBegin;
use rcon_control::manager::ExecAction;
use rcon_control::manager::ExecEvent;
use rcon_control::manager::RconConfig;
use rcon_control::manager::RconManager;
use rcon_control::session::RconConnection;

fn config() -> RconConfig {
    RconConfig {
        host: "127.0.0.1".to_string(),
        port: 25575,
        password: "minecraft".to_string(),
    }
}

/// Drives the connect flow as the application would, with the server's
/// authentication response simulated by `auth_reply_id` (`None` echoes the
/// request id back, i.e. success).
fn simulate_connect(rcon: &mut RconManager, name: &str, auth_reply_id: Option<i32>) -> Result<(), RconError> {
    match rcon.connect_begin(name) {
        ConnectBegin::AlreadyConnected => Ok(()),
        ConnectBegin::NoConfig => Err(RconError::ConnectionFailed(
            "Server not configured".to_string(),
        )),
        ConnectBegin::Attempt(mut session) => {
            session.connect_precheck()?;
            session.stream_opened();
            let (auth_id, _bytes) = match session.begin_auth() {
                Ok(p) => p,
                Err(e) => return Err(session.mark_lost(e)),
            };
            let reply = RconPacket {
                request_id: auth_reply_id.unwrap_or(auth_id),
                packet_type: 0,
                payload: String::new(),
            };
            session.finish_auth(&reply, auth_id)?;
            rcon.connect_finish(name, session);
            Ok(())
        }
    }
}

#[test]
fn connect_without_config_fails() {
    let mut rcon = RconManager::new();
    assert!(matches!(rcon.connect_begin("alpha"), ConnectBegin::NoConfig));
}

#[test]
fn connect_twice_makes_one_network_attempt() {
    let mut rcon = RconManager::new();
    rcon.add_server("alpha".to_string(), config());
    let mut attempts = 0;
    for _ in 0..2 {
        match rcon.connect_begin("alpha") {
            ConnectBegin::AlreadyConnected => {}
            ConnectBegin::NoConfig => panic!("configured server reported NoConfig"),
            ConnectBegin::Attempt(mut session) => {
                attempts += 1;
                session.stream_opened();
                let (auth_id, _) = session.begin_auth().unwrap();
                let reply = RconPacket {
                    request_id: auth_id,
                    packet_type: 0,
                    payload: String::new(),
                };
                session.finish_auth(&reply, auth_id).unwrap();
                rcon.connect_finish("alpha", session);
            }
        }
    }
    // The second call returned Ok immediately: only one real connect.
    assert_eq!(attempts, 1);
    assert!(rcon.is_connected("alpha"));
}

#[test]
fn failed_auth_leaves_server_disconnected() {
    let mut rcon = RconManager::new();
    rcon.add_server("alpha".to_string(), config());
    let r = simulate_connect(&mut rcon, "alpha", Some(-1));
    assert!(matches!(r, Err(RconError::AuthenticationFailed)));
    assert!(!rcon.is_connected("alpha"));
}

#[test]
fn retry_once_then_surface_retry_payload() {
    // A ServerClosedConnection triggers exactly one reconnect followed by
    // one retry; the successful retry's payload is the result.
    let mut rcon = RconManager::new();
    rcon.add_server("alpha".to_string(), config());
    simulate_connect(&mut rcon, "alpha", None).unwrap();

    let (mut flow, action) = rcon.execute_begin("alpha", None, "list".to_string());
    assert!(matches!(action, ExecAction::RunCommand));

    let action = rcon.execute_step(
        "alpha",
        &mut flow,
        ExecEvent::CommandDone(Err(RconError::ServerClosedConnection)),
        1000,
    );
    assert!(matches!(action, ExecAction::Connect));

    let action = rcon.execute_step("alpha", &mut flow, ExecEvent::ConnectDone(Ok(())), 1001);
    assert!(matches!(action, ExecAction::RunCommand));

    let action = rcon.execute_step(
        "alpha",
        &mut flow,
        ExecEvent::CommandDone(Ok("There are 0 players online".to_string())),
        1002,
    );
    match action {
        ExecAction::Done(r) => assert_eq!(r, Ok("There are 0 players online".to_string())),
        _ => panic!("expected Done"),
    }
}

#[test]
fn failed_retry_surfaces_original_error() {
    let mut rcon = RconManager::new();
    rcon.add_server("alpha".to_string(), config());
    simulate_connect(&mut rcon, "alpha", None).unwrap();

    let (mut flow, action) = rcon.execute_begin("alpha", None, "list".to_string());
    assert!(matches!(action, ExecAction::RunCommand));
    let action = rcon.execute_step(
        "alpha",
        &mut flow,
        ExecEvent::CommandDone(Err(RconError::ServerClosedConnection)),
        1000,
    );
    assert!(matches!(action, ExecAction::Connect));
    let action = rcon.execute_step("alpha", &mut flow, ExecEvent::ConnectDone(Ok(())), 1001);
    assert!(matches!(action, ExecAction::RunCommand));
    // The retry fails with a different error; the original one comes out.
    let action = rcon.execute_step(
        "alpha",
        &mut flow,
        ExecEvent::CommandDone(Err(RconError::NetworkTimeout)),
        1002,
    );
    match action {
        ExecAction::Done(r) => assert_eq!(r, Err(RconError::ServerClosedConnection)),
        _ => panic!("expected Done"),
    }
}

#[test]
fn authentication_failure_is_never_retried() {
    let mut rcon = RconManager::new();
    rcon.add_server("alpha".to_string(), config());
    simulate_connect(&mut rcon, "alpha", None).unwrap();

    let (mut flow, action) = rcon.execute_begin("alpha", None, "list".to_string());
    assert!(matches!(action, ExecAction::RunCommand));
    let action = rcon.execute_step(
        "alpha",
        &mut flow,
        ExecEvent::CommandDone(Err(RconError::AuthenticationFailed)),
        1000,
    );
    // Straight to Done: no Connect (reconnect) action was requested.
    match action {
        ExecAction::Done(r) => assert_eq!(r, Err(RconError::AuthenticationFailed)),
        _ => panic!("auth failure must not trigger a retry"),
    }
}

#[test]
fn execute_begin_provisions_default_config() {
    let mut rcon = RconManager::new();
    let (_flow, action) = rcon.execute_begin("fresh", Some("secret".to_string()), "list".to_string());
    // Not connected yet, so the first action is a connect.
    assert!(matches!(action, ExecAction::Connect));
    match rcon.connect_begin("fresh") {
        ConnectBegin::Attempt(session) => {
            assert_eq!(session.host, "127.0.0.1");
            assert_eq!(session.port, 25575);
            assert_eq!(session.password, "secret");
        }
        _ => panic!("expected Attempt"),
    }
}

#[test]
fn empty_stored_password_falls_back_to_minecraft() {
    let mut rcon = RconManager::new();
    let (_flow, _action) = rcon.execute_begin("fresh", Some(String::new()), "list".to_string());
    match rcon.connect_begin("fresh") {
        ConnectBegin::Attempt(session) => assert_eq!(session.password, "minecraft"),
        _ => panic!("expected Attempt"),
    }
}

#[test]
fn heartbeat_command_needs_live_session() {
    let mut rcon = RconManager::new();
    rcon.add_server("alpha".to_string(), config());
    assert!(matches!(
        rcon.heartbeat_begin("alpha"),
        Err(RconError::NotConnected)
    ));
    simulate_connect(&mut rcon, "alpha", None).unwrap();
    assert!(rcon.heartbeat_begin("alpha").is_ok());
}

#[test]
fn retryable_classification() {
    let rcon = RconManager::new();
    assert!(rcon.is_retryable_error(&RconError::ServerClosedConnection));
    assert!(rcon.is_retryable_error(&RconError::NetworkTimeout));
    assert!(rcon.is_retryable_error(&RconError::BufferError("x".to_string())));
    assert!(rcon.is_retryable_error(&RconError::InvalidResponse));
    assert!(rcon.is_retryable_error(&RconError::NotConnected));
    assert!(rcon.is_retryable_error(&RconError::ConnectionFailed("x".to_string())));
    assert!(rcon.is_retryable_error(&RconError::CommandFailed(
        "io: Connection reset by peer".to_string()
    )));
    assert!(rcon.is_retryable_error(&RconError::CommandFailed(
        "failed to fill whole buffer".to_string()
    )));
    assert!(!rcon.is_retryable_error(&RconError::CommandFailed(
        "permission denied".to_string()
    )));
    assert!(!rcon.is_retryable_error(&RconError::AuthenticationFailed));
}

#[test]
fn test_connection_classification() {
    assert_eq!(
        RconManager::classify_test_connection(Ok("ok".to_string())),
        Ok(true)
    );
    assert_eq!(
        RconManager::classify_test_connection(Err(RconError::AuthenticationFailed)),
        Ok(false)
    );
    assert_eq!(
        RconManager::classify_test_connection(Err(RconError::ConnectionFailed("x".to_string()))),
        Ok(false)
    );
    assert_eq!(
        RconManager::classify_test_connection(Err(RconError::NetworkTimeout)),
        Err(RconError::NetworkTimeout)
    );
}

#[test]
fn connected_servers_listing_and_removal() {
    let mut rcon = RconManager::new();
    rcon.add_server("alpha".to_string(), config());
    rcon.add_server("beta".to_string(), config());
    simulate_connect(&mut rcon, "alpha", None).unwrap();
    let names = rcon.get_connected_servers();
    assert_eq!(names, vec!["alpha".to_string()]);

    rcon.disconnect("alpha");
    assert!(!rcon.is_connected("alpha"));
    assert!(rcon.get_connected_servers().is_empty());

    rcon.remove_server("alpha");
    assert!(matches!(rcon.connect_begin("alpha"), ConnectBegin::NoConfig));
}

#[test]
fn disconnect_all_clears_sessions() {
    let mut rcon = RconManager::new();
    rcon.add_server("alpha".to_string(), config());
    simulate_connect(&mut rcon, "alpha", None).unwrap();
    rcon.disconnect_all();
    assert!(!rcon.is_connected("alpha"));
    assert!(rcon.get_connected_servers().is_empty());
}

#[test]
fn session_can_be_taken_and_returned() {
    let mut rcon = RconManager::new();
    rcon.add_server("alpha".to_string(), config());
    simulate_connect(&mut rcon, "alpha", None).unwrap();
    let session: RconConnection = rcon.take_session("alpha").unwrap();
    assert!(!rcon.is_connected("alpha"));
    rcon.put_session("alpha", session);
    assert!(rcon.is_connected("alpha"));
}

#[test]
fn adaptive_delay_grows_with_failures() {
    let mut rcon = RconManager::new();
    rcon.add_server("alpha".to_string(), config());
    simulate_connect(&mut rcon, "alpha", None).unwrap();
    assert_eq!(rcon.adaptive_delay_ms("alpha"), 200);
    let (mut flow, _) = rcon.execute_begin("alpha", None, "list".to_string());
    rcon.execute_step(
        "alpha",
        &mut flow,
        ExecEvent::CommandDone(Err(RconError::NetworkTimeout)),
        1,
    );
    assert_eq!(rcon.adaptive_delay_ms("alpha"), 200);
    let (mut flow, _) = rcon.execute_begin("alpha", None, "list".to_string());
    rcon.execute_step(
        "alpha",
        &mut flow,
        ExecEvent::CommandDone(Err(RconError::NetworkTimeout)),
        2,
    );
    assert_eq!(rcon.adaptive_delay_ms("alpha"), 1000);
}
