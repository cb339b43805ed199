use rcon_control::codec::RconError;
use rcon_control::codec::RconPacket;
use rcon_control::codec::RCON_TYPE_RESPONSE;
use rcon_control::session::payload_is_keep_alive;
use rcon_control::session::RconConnection;
use rcon_control::session::ResponseStep;

fn response(request_id: i32, payload: &str) -> RconPacket {
    RconPacket {
        request_id,
        packet_type: RCON_TYPE_RESPONSE,
        payload: payload.to_string(),
    }
}

#[test]
fn precheck_rejects_empty_host() {
    let conn = RconConnection::new(String::new(), 25575, "pw".to_string());
    match conn.connect_precheck() {
        Err(RconError::ConnectionFailed(m)) => assert_eq!(m, "Host cannot be empty"),
        other => panic!("unexpected: {:?}", other),
    }
}

#[test]
fn precheck_rejects_zero_port() {
    let conn = RconConnection::new("localhost".to_string(), 0, "pw".to_string());
    match conn.connect_precheck() {
        Err(RconError::ConnectionFailed(m)) => assert_eq!(m, "Port cannot be zero"),
        other => panic!("unexpected: {:?}", other),
    }
}

#[test]
fn precheck_accepts_valid_endpoint() {
    let conn = RconConnection::new("localhost".to_string(), 25575, "pw".to_string());
    assert!(conn.connect_precheck().is_ok());
}

#[test]
fn auth_rejection_by_minus_one() {
    // A server replying request_id = -1 rejects the password: the session
    // must report AuthenticationFailed and no longer count as connected.
    let mut conn = RconConnection::new("localhost".to_string(), 25575, "wrong".to_string());
    conn.stream_opened();
    let (auth_id, bytes) = conn.begin_auth().unwrap();
    assert_eq!(auth_id, 1);
    assert!(!bytes.is_empty());
    let result = conn.finish_auth(&response(-1, ""), auth_id);
    assert!(matches!(result, Err(RconError::AuthenticationFailed)));
    assert!(!conn.is_connected());
}

#[test]
fn auth_success_connects() {
    let mut conn = RconConnection::new("localhost".to_string(), 25575, "pw".to_string());
    conn.stream_opened();
    let (auth_id, _) = conn.begin_auth().unwrap();
    assert!(conn.finish_auth(&response(auth_id, ""), auth_id).is_ok());
    assert!(conn.is_connected());
}

#[test]
fn command_without_connection_is_refused() {
    // Never connected: no packet is built, so no I/O could be attempted.
    let mut conn = RconConnection::new("localhost".to_string(), 25575, "pw".to_string());
    let r = conn.begin_command("list");
    assert!(matches!(r, Err(RconError::NotConnected)));
}

#[test]
fn command_ids_are_sequential() {
    let mut conn = RconConnection::new("localhost".to_string(), 25575, "pw".to_string());
    conn.stream_opened();
    let (auth_id, _) = conn.begin_auth().unwrap();
    conn.finish_auth(&response(auth_id, ""), auth_id).unwrap();
    let (id2, _) = conn.begin_command("list").unwrap();
    let (id3, _) = conn.begin_command("list").unwrap();
    assert_eq!(auth_id, 1);
    assert_eq!(id2, 2);
    assert_eq!(id3, 3);
}

#[test]
fn matching_response_is_done() {
    let mut conn = RconConnection::new("localhost".to_string(), 25575, "pw".to_string());
    conn.stream_opened();
    let (auth_id, _) = conn.begin_auth().unwrap();
    conn.finish_auth(&response(auth_id, ""), auth_id).unwrap();
    let (cmd_id, _) = conn.begin_command("list").unwrap();
    match conn.on_response(cmd_id, &response(cmd_id, "There are 0 players online")) {
        ResponseStep::Done(p) => assert_eq!(p, "There are 0 players online"),
        _ => panic!("expected Done"),
    }
}

#[test]
fn keep_alive_asks_for_second_read() {
    let conn = RconConnection::new("localhost".to_string(), 25575, "pw".to_string());
    assert!(matches!(
        conn.on_response(5, &response(99, "Keep Alive")),
        ResponseStep::ReadAgain
    ));
    assert!(matches!(
        conn.on_response(5, &response(99, "   ")),
        ResponseStep::ReadAgain
    ));
    match conn.on_second_response(5, &response(5, "pong")) {
        Ok(p) => assert_eq!(p, "pong"),
        other => panic!("unexpected: {:?}", other),
    }
}

#[test]
fn mismatch_without_keep_alive_is_invalid() {
    let conn = RconConnection::new("localhost".to_string(), 25575, "pw".to_string());
    match conn.on_response(5, &response(99, "someone else's answer")) {
        ResponseStep::Failed(e) => assert_eq!(e, RconError::InvalidResponse),
        _ => panic!("expected Failed"),
    }
    assert!(matches!(
        conn.on_second_response(5, &response(99, "still wrong")),
        Err(RconError::InvalidResponse)
    ));
}

#[test]
fn disconnect_is_idempotent() {
    let mut conn = RconConnection::new("localhost".to_string(), 25575, "pw".to_string());
    conn.stream_opened();
    let (auth_id, _) = conn.begin_auth().unwrap();
    conn.finish_auth(&response(auth_id, ""), auth_id).unwrap();
    assert!(conn.is_connected());
    conn.disconnect();
    assert!(!conn.is_connected());
    conn.disconnect();
    assert!(!conn.is_connected());
}

#[test]
fn keep_alive_payload_forms() {
    assert!(payload_is_keep_alive(""));
    assert!(payload_is_keep_alive("   \t"));
    assert!(payload_is_keep_alive("keep alive"));
    assert!(payload_is_keep_alive("Keep Alive"));
    assert!(payload_is_keep_alive("  KEEP ALIVE \r\n"));
    assert!(!payload_is_keep_alive("keepalive"));
    assert!(!payload_is_keep_alive("keep alive!"));
    assert!(!payload_is_keep_alive("There are 0 players online"));
}
