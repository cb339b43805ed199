use rcon_control::logger::RconLogger;
use rcon_control::models::QueryResponse;
use rcon_control::models::Server;
use rcon_control::models::ServerState;
use rcon_control::models::ServerType;
use rcon_control::query_service::QueryService;
use rcon_control::server_file_manager::InstanceError;
use rcon_control::server_file_manager::ServerFileManager;
use rcon_control::server_file_manager::ServerInstance;
use rcon_control::server_monitor::ServerMonitorState;
use rcon_control::server_monitor::ServerMonitorStatus;
use rcon_control::text::parse_i32;
use rcon_control::text::parse_u16;
use rcon_control::text::parse_u64;
use rcon_control::text::str_contains;
use rcon_control::text::trim_str;
use rcon_control::text::u64_to_string;

#[test]
fn decimal_rendering() {
    assert_eq!(u64_to_string(0), "0");
    assert_eq!(u64_to_string(7), "7");
    assert_eq!(u64_to_string(25575), "25575");
    assert_eq!(u64_to_string(u64::MAX), "18446744073709551615");
}

#[test]
fn decimal_parsing() {
    assert_eq!(parse_u64("123"), Some(123));
    assert_eq!(parse_u64("+123"), Some(123));
    assert_eq!(parse_u64("0"), Some(0));
    assert_eq!(parse_u64(""), None);
    assert_eq!(parse_u64("+"), None);
    assert_eq!(parse_u64("12a"), None);
    assert_eq!(parse_u64("18446744073709551615"), Some(u64::MAX));
    assert_eq!(parse_u64("18446744073709551616"), None);
    assert_eq!(parse_u16("65535"), Some(65535));
    assert_eq!(parse_u16("65536"), None);
    assert_eq!(parse_i32("-42"), Some(-42));
    assert_eq!(parse_i32("-2147483648"), Some(i32::MIN));
    assert_eq!(parse_i32("2147483648"), None);
}

#[test]
fn substring_and_trim() {
    assert!(str_contains("Connection reset by peer", "Connection reset"));
    assert!(str_contains("abc", ""));
    assert!(!str_contains("short", "longer than the text"));
    assert!(!str_contains("Connection closed", "Connection reset"));
    assert_eq!(trim_str("  a b \t"), "a b");
    assert_eq!(trim_str(""), "");
    assert_eq!(trim_str(" \r\n "), "");
}

#[test]
fn logger_records_structured_entries() {
    let mut log = RconLogger::new("alpha".to_string());
    log.log_connection("127.0.0.1", 25575);
    log.log_authentication("hunter2");
    log.log_command("list", false);
    log.log_command("list", true);
    log.log_command_response("list", "0 players", false);
    log.log_command_error("stop", "boom", true);
    log.log_reconnection_attempt(3);
    log.log_info("hello");

    assert_eq!(log.server_name, "alpha");
    let entries = log.drain_entries();
    assert_eq!(entries.len(), 8);
    assert_eq!(entries[0].level, "CONNECTION");
    assert_eq!(entries[0].message, "Connecting to RCON at 127.0.0.1:25575");
    assert_eq!(entries[1].level, "AUTH");
    assert_eq!(
        entries[1].message,
        "Attempting authentication (password length: 7)"
    );
    assert_eq!(entries[2].level, "COMMAND");
    assert_eq!(entries[2].message, "Executing: list");
    assert_eq!(entries[3].level, "HEARTBEAT");
    assert_eq!(entries[4].message, "Response for 'list': 0 players");
    assert_eq!(entries[5].level, "HEARTBEAT_ERROR");
    assert_eq!(entries[5].message, "Error executing 'stop': boom");
    assert_eq!(entries[6].level, "RECONNECTION");
    assert_eq!(entries[6].message, "Attempting reconnection #3");
    assert_eq!(entries[7].level, "INFO");
    assert_eq!(entries[7].message, "hello");
    // Draining empties the log.
    assert!(log.drain_entries().is_empty());
}

#[test]
fn server_model_state_changes() {
    let mut server = Server::new(
        "alpha".to_string(),
        "a test server".to_string(),
        false,
        "1.21".to_string(),
        ServerType::Vanilla,
        ServerState::Offline,
    );
    assert!(matches!(server.get_server_state(), ServerState::Offline));
    server.set_server_state(ServerState::Online);
    assert!(matches!(server.get_server_state(), ServerState::Online));
}

#[test]
fn query_response_constructors() {
    let off = QueryResponse::offline("timed out".to_string());
    assert!(!off.online);
    assert_eq!(off.error.as_deref(), Some("timed out"));
    assert!(off.players_online.is_none());

    let on = QueryResponse::online(3, 20, "welcome".to_string(), "1.21".to_string());
    assert!(on.online);
    assert_eq!(on.players_online, Some(3));
    assert_eq!(on.players_max, Some(20));
    assert_eq!(on.motd.as_deref(), Some("welcome"));
    assert_eq!(on.version.as_deref(), Some("1.21"));
    assert!(on.error.is_none());
}

#[test]
fn query_service_configuration() {
    let mut service = QueryService::with_default();
    assert_eq!(service.config.host, "127.0.0.1");
    assert_eq!(service.config.port, 25565);
    assert_eq!(service.config.timeout_ms, 5000);
    service.set_host("10.0.0.9".to_string());
    service.set_port(25566);
    service.set_timeout(750);
    assert_eq!(service.config.host, "10.0.0.9");
    assert_eq!(service.config.port, 25566);
    assert_eq!(service.config.timeout_ms, 750);
}

#[test]
fn query_packets_are_exact() {
    let handshake = QueryService::create_handshake_packet(1);
    assert_eq!(handshake, vec![0xFE, 0xFD, 0x09, 0, 0, 0, 1]);
    let query = QueryService::create_query_packet(1, 0x0091_2345);
    assert_eq!(
        query,
        vec![0xFE, 0xFD, 0x00, 0, 0, 0, 1, 0x00, 0x91, 0x23, 0x45]
    );
}

#[test]
fn four_state_monitor_flags() {
    let mut state = ServerMonitorState::new(25565, 1_000);
    assert_eq!(state.port, 25565);
    assert_eq!(state.last_check, 1_000);
    assert!(!state.is_online());
    assert!(!state.is_transitioning());
    state.status = ServerMonitorStatus::Starting;
    assert!(state.is_transitioning());
    state.status = ServerMonitorStatus::Online;
    assert!(state.is_online());
    state.status = ServerMonitorStatus::Stopping;
    assert!(state.is_transitioning());
}

#[test]
fn instance_registry_rules() {
    let mut manager = ServerFileManager::new("storage/servers.json".to_string());
    let inst = ServerInstance::new(
        "alpha".to_string(),
        "1.21".to_string(),
        "vanilla".to_string(),
        String::new(),
        "storage",
    );
    assert_eq!(inst.storage_path, "storage/alpha");
    assert_eq!(inst.memory_mb, 2048);
    assert!(inst.description.is_none());

    manager.add_instance(inst.duplicate()).unwrap();
    assert!(manager.instance_exists("alpha"));
    assert_eq!(
        manager.add_instance(inst.duplicate()),
        Err(InstanceError::AlreadyExists("alpha".to_string()))
    );
    assert_eq!(
        manager.remove_instance("ghost"),
        Err(InstanceError::NotFound("ghost".to_string()))
    );

    let mut updated = inst.duplicate();
    updated.memory_mb = 4096;
    manager.update_instance("alpha", updated).unwrap();
    assert_eq!(manager.get_instance("alpha").unwrap().memory_mb, 4096);
    assert_eq!(manager.get_all_instances().len(), 1);

    manager.remove_instance("alpha").unwrap();
    assert!(!manager.instance_exists("alpha"));
    assert!(manager.get_instance("alpha").is_none());
}
