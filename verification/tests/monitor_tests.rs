use rcon_control::codec::RconPacket;
use rcon_control::heartbeat::HeartbeatCommand;
use rcon_control::heartbeat::HeartbeatManager;
use rcon_control::heartbeat::HeartbeatTickAction;
use rcon_control::manager::ConnectBegin;
use rcon_control::manager::RconConfig;
use rcon_control::manager::RconManager;
use rcon_control::monitor::provision_default_config;
use rcon_control::monitor::ServerStatus;
use rcon_control::monitor::SimpleRconMonitor;
use rcon_control::monitor::TickStep;

fn connect_alpha(rcon: &mut RconManager) {
    rcon.add_server(
        "alpha".to_string(),
        RconConfig {
            host: "127.0.0.1".to_string(),
            port: 25575,
            password: "minecraft".to_string(),
        },
    );
    match rcon.connect_begin("alpha") {
        ConnectBegin::Attempt(mut session) => {
            session.stream_opened();
            let (auth_id, _) = session.begin_auth().unwrap();
            let reply = RconPacket {
                request_id: auth_id,
                packet_type: 0,
                payload: String::new(),
            };
            session.finish_auth(&reply, auth_id).unwrap();
            rcon.connect_finish("alpha", session);
        }
        _ => panic!("expected Attempt"),
    }
}

#[test]
fn monitor_two_failures_then_online_with_one_event() {
    // Three 15s ticks: the first two connection attempts fail (no event,
    // still Offline); the third succeeds and yields exactly one event.
    let mut monitor = SimpleRconMonitor::new();
    monitor.start_monitoring("alpha".to_string());
    let mut events = 0;

    for (tick, now) in [(1u32, 0u64), (2, 15_000), (3, 30_000)] {
        let step = monitor.tick_decision("alpha", now);
        assert!(matches!(step, TickStep::AttemptConnect), "tick {}", tick);
        let succeed = tick == 3;
        if let Some(e) = monitor.tick_connect_result("alpha", succeed, now) {
            events += 1;
            assert_eq!(e.server_name, "alpha");
            assert_eq!(e.old_status, ServerStatus::Offline);
            assert_eq!(e.new_status, ServerStatus::Online);
            assert_eq!(e.timestamp, now);
        }
        if tick < 3 {
            assert_eq!(monitor.get_server_status("alpha"), ServerStatus::Offline);
        }
    }
    assert_eq!(events, 1);
    assert_eq!(monitor.get_server_status("alpha"), ServerStatus::Online);
}

#[test]
fn monitor_no_second_attempt_while_connecting_or_within_cooldown() {
    let mut monitor = SimpleRconMonitor::new();
    monitor.start_monitoring("alpha".to_string());

    // First poll begins an attempt and marks it in flight.
    assert!(matches!(
        monitor.tick_decision("alpha", 1_000),
        TickStep::AttemptConnect
    ));
    // While is_connecting is set, no second attempt, even on later polls.
    assert!(matches!(
        monitor.tick_decision("alpha", 1_000),
        TickStep::CheckOnline
    ));
    assert!(matches!(
        monitor.tick_decision("alpha", 60_000),
        TickStep::CheckOnline
    ));
    // The attempt fails; within 15s of its start still no new attempt.
    assert!(monitor.tick_connect_result("alpha", false, 1_200).is_none());
    assert!(matches!(
        monitor.tick_decision("alpha", 10_000),
        TickStep::CheckOnline
    ));
    assert!(matches!(
        monitor.tick_decision("alpha", 15_999),
        TickStep::CheckOnline
    ));
    // A full poll interval after the attempt it tries again.
    assert!(matches!(
        monitor.tick_decision("alpha", 16_000),
        TickStep::AttemptConnect
    ));
}

#[test]
fn monitor_unmonitored_server_is_skipped() {
    let mut monitor = SimpleRconMonitor::new();
    assert!(matches!(
        monitor.tick_decision("ghost", 0),
        TickStep::NotMonitored
    ));
    assert_eq!(monitor.get_server_status("ghost"), ServerStatus::Offline);
}

#[test]
fn online_server_losing_session_goes_offline_with_event() {
    let mut monitor = SimpleRconMonitor::new();
    monitor.start_monitoring("alpha".to_string());
    assert!(matches!(
        monitor.tick_decision("alpha", 0),
        TickStep::AttemptConnect
    ));
    assert!(monitor.tick_connect_result("alpha", true, 0).is_some());

    // Still connected: nothing happens.
    assert!(monitor.tick_online_check("alpha", true, 15_000).is_none());
    assert_eq!(monitor.get_server_status("alpha"), ServerStatus::Online);

    // Session gone: demoted with exactly one event.
    let e = monitor.tick_online_check("alpha", false, 30_000).unwrap();
    assert_eq!(e.old_status, ServerStatus::Online);
    assert_eq!(e.new_status, ServerStatus::Offline);
    assert_eq!(e.timestamp, 30_000);
    assert_eq!(monitor.get_server_status("alpha"), ServerStatus::Offline);
    // No second event for the same loss.
    assert!(monitor.tick_online_check("alpha", false, 45_000).is_none());
}

#[test]
fn stop_monitoring_removes_state_and_disconnects() {
    let mut rcon = RconManager::new();
    connect_alpha(&mut rcon);
    assert!(rcon.is_connected("alpha"));

    let mut monitor = SimpleRconMonitor::new();
    monitor.start_monitoring("alpha".to_string());
    monitor.update_server_status("alpha", ServerStatus::Online, 500);

    monitor.stop_monitoring("alpha", &mut rcon);
    assert!(!rcon.is_connected("alpha"));
    assert_eq!(monitor.get_server_status("alpha"), ServerStatus::Offline);
    assert!(monitor.get_all_statuses().is_empty());
}

#[test]
fn update_status_emits_only_on_change() {
    let mut monitor = SimpleRconMonitor::new();
    monitor.start_monitoring("alpha".to_string());
    let e = monitor
        .update_server_status("alpha", ServerStatus::Online, 7_000)
        .unwrap();
    assert_eq!(e.old_status, ServerStatus::Offline);
    assert_eq!(e.new_status, ServerStatus::Online);
    assert_eq!(e.timestamp, 7_000);
    assert!(monitor
        .update_server_status("alpha", ServerStatus::Online, 8_000)
        .is_none());
    assert!(monitor
        .update_server_status("ghost", ServerStatus::Online, 9_000)
        .is_none());
}

#[test]
fn default_config_is_provisioned_once() {
    let mut rcon = RconManager::new();
    provision_default_config(&mut rcon, "alpha");
    match rcon.connect_begin("alpha") {
        ConnectBegin::Attempt(s) => {
            assert_eq!(s.host, "127.0.0.1");
            assert_eq!(s.port, 25575);
            assert_eq!(s.password, "minecraft");
        }
        _ => panic!("expected Attempt"),
    }
    // An explicit configuration is kept.
    rcon.add_server(
        "beta".to_string(),
        RconConfig {
            host: "10.0.0.5".to_string(),
            port: 1234,
            password: "secret".to_string(),
        },
    );
    provision_default_config(&mut rcon, "beta");
    match rcon.connect_begin("beta") {
        ConnectBegin::Attempt(s) => {
            assert_eq!(s.host, "10.0.0.5");
            assert_eq!(s.port, 1234);
            assert_eq!(s.password, "secret");
        }
        _ => panic!("expected Attempt"),
    }
}

#[test]
fn heartbeat_escalates_after_three_failures() {
    let mut hb = HeartbeatManager::new();
    hb.start_heartbeat("alpha".to_string());
    assert!(hb.is_heartbeat_active("alpha"));

    assert!(matches!(
        hb.on_tick_result("alpha", false),
        HeartbeatTickAction::Continue
    ));
    assert!(matches!(
        hb.on_tick_result("alpha", false),
        HeartbeatTickAction::Continue
    ));
    assert!(matches!(
        hb.on_tick_result("alpha", false),
        HeartbeatTickAction::EscalateReconnect
    ));
    // A failed reconnect keeps escalating on the next failed tick.
    hb.on_reconnect_result("alpha", false);
    assert!(matches!(
        hb.on_tick_result("alpha", false),
        HeartbeatTickAction::EscalateReconnect
    ));
    // A successful reconnect resets the counter.
    hb.on_reconnect_result("alpha", true);
    assert!(matches!(
        hb.on_tick_result("alpha", false),
        HeartbeatTickAction::Continue
    ));
    // So does a successful tick.
    hb.on_tick_result("alpha", true);
    assert!(matches!(
        hb.on_tick_result("alpha", false),
        HeartbeatTickAction::Continue
    ));
}

#[test]
fn heartbeat_commands_drive_the_registry() {
    let mut hb = HeartbeatManager::new();
    hb.apply(HeartbeatCommand::StartHeartbeat("alpha".to_string()));
    hb.apply(HeartbeatCommand::StartHeartbeat("beta".to_string()));
    let mut names = hb.get_active_heartbeats();
    names.sort();
    assert_eq!(names, vec!["alpha".to_string(), "beta".to_string()]);
    hb.apply(HeartbeatCommand::StopHeartbeat("alpha".to_string()));
    assert!(!hb.is_heartbeat_active("alpha"));
    assert!(hb.is_heartbeat_active("beta"));
    hb.apply(HeartbeatCommand::StopAll);
    assert!(hb.get_active_heartbeats().is_empty());
}

#[test]
fn unknown_server_ticks_are_ignored_by_heartbeat() {
    let mut hb = HeartbeatManager::new();
    assert!(matches!(
        hb.on_tick_result("ghost", false),
        HeartbeatTickAction::Continue
    ));
}
