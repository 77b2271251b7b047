use auto_targeting::fc::{MockFcState, RecordedCommand};
use auto_targeting::config::FcConfig;
use auto_targeting::fc::{
    adapter_kind, base_mode_armed, custom_mode_for, heartbeat_to_flight_mode, AdapterKind,
    ArduPilotConfig, FcError, MavlinkCoreConfig, SittlConfig,
};
use auto_targeting::rate_limiter::CommandRateLimiter;
use auto_targeting::types::FlightMode;

#[test]
fn ardupilot_mavlink_config_from_common() {
    let common_cfg = FcConfig {
        endpoint: "serial:/dev/ttyUSB0:57600".to_string(),
        system_id: 200,
        ..Default::default()
    };
    let cfg = ArduPilotConfig::from_common(&common_cfg);
    assert_eq!(cfg.endpoint, "serial:/dev/ttyUSB0:57600");
    assert_eq!(cfg.system_id, 200);
}

#[test]
fn ardupilot_mavlink_default_config_is_serial() {
    assert!(ArduPilotConfig::default().endpoint.starts_with("serial:"));
}

#[test]
fn mavlink_core_config_from_common() {
    let common_cfg = FcConfig {
        endpoint: "serial:/dev/ttyUSB0:57600".to_string(),
        system_id: 200,
        ..Default::default()
    };
    let cfg = MavlinkCoreConfig::from_common(&common_cfg);
    assert_eq!(cfg.endpoint, "serial:/dev/ttyUSB0:57600");
    assert_eq!(cfg.system_id, 200);
}

#[test]
fn mavlink_core_default_config_is_serial() {
    let cfg = MavlinkCoreConfig::default();
    assert!(cfg.endpoint.starts_with("serial:"));
}

#[test]
fn sitl_mavlink_config_from_common() {
    let common_cfg = FcConfig {
        endpoint: "127.0.0.1:14551".to_string(),
        system_id: 200,
        ..Default::default()
    };
    let cfg = SittlConfig::from_common(&common_cfg);
    assert_eq!(cfg.endpoint, "127.0.0.1:14551");
}

#[test]
fn core_url_gets_udpin_prefix() {
    let core_cfg = SittlConfig::default().to_core();
    assert_eq!(core_cfg.endpoint, "udpin:127.0.0.1:14550");
}

#[test]
fn ardupilot_to_core_passes_endpoint_through() {
    let cfg = ArduPilotConfig {
        endpoint: "tcpout:127.0.0.1:5760".to_string(),
        heartbeat_timeout_ms: 2500,
        ..Default::default()
    };
    let core = cfg.to_core();
    assert_eq!(core.endpoint, "tcpout:127.0.0.1:5760");
    assert_eq!(core.heartbeat_timeout_ms, 2500);
    assert_eq!(core.system_id, 255);
}

#[test]
fn sitl_core_heartbeat_is_one_second() {
    let cfg = SittlConfig::from_common(&FcConfig::default());
    assert_eq!(cfg.to_core().heartbeat_timeout_ms, 1000);
}

#[test]
fn allows_first_command() {
    let mut rl = CommandRateLimiter::new(10);
    assert!(rl.try_send());
    assert_eq!(rl.sent_count(), 1);
}

#[test]
fn drops_within_interval() {
    let mut rl = CommandRateLimiter::new(10);
    assert!(rl.try_send());
    assert!(!rl.try_send());
    assert!(!rl.try_send());
    assert_eq!(rl.dropped_count(), 2);
    assert_eq!(rl.sent_count(), 1);
}

#[test]
fn force_send_bypasses_limit() {
    let mut rl = CommandRateLimiter::new(10);
    assert!(rl.try_send());
    rl.force_send();
    rl.force_send();
    assert_eq!(rl.sent_count(), 3);
}

#[test]
fn rate_limiter_uses_explicit_times() {
    let mut rl = CommandRateLimiter::new(10);
    assert_eq!(rl.min_interval_ns(), 100_000_000);
    assert!(rl.try_send_at(1_000));
    assert!(!rl.try_send_at(1_000 + 99_999_999));
    assert!(rl.try_send_at(1_000 + 100_000_000));
    // a clock that runs backwards counts as no time elapsed
    assert!(!rl.try_send_at(5));
    rl.force_send_at(7);
    assert!(!rl.try_send_at(8));
    assert_eq!(rl.sent_count(), 3);
    assert_eq!(rl.dropped_count(), 3);
}

#[test]
fn rate_limiter_interval_rounds_to_nearest_nanosecond() {
    assert_eq!(CommandRateLimiter::new(7).min_interval_ns(), 142_857_143);
    assert_eq!(CommandRateLimiter::new(3).min_interval_ns(), 333_333_333);
    assert_eq!(CommandRateLimiter::new(1).min_interval_ns(), 1_000_000_000);
}

#[test]
fn custom_modes_round_trip() {
    for mode in [
        FlightMode::Manual,
        FlightMode::Stabilize,
        FlightMode::Loiter,
        FlightMode::Guided,
        FlightMode::Rtl,
        FlightMode::Auto,
    ] {
        let n = custom_mode_for(mode).unwrap();
        assert_eq!(heartbeat_to_flight_mode(true, n), mode);
    }
    assert_eq!(custom_mode_for(FlightMode::Guided).unwrap(), 15);
    assert_eq!(custom_mode_for(FlightMode::Rtl).unwrap(), 11);
    assert!(matches!(
        custom_mode_for(FlightMode::AltHold),
        Err(FcError::UnsupportedMode(FlightMode::AltHold))
    ));
}

#[test]
fn heartbeat_mode_translation_guided() {
    // ArduPilot autopilot, custom mode 15, armed
    assert_eq!(heartbeat_to_flight_mode(true, 15), FlightMode::Guided);
    assert!(base_mode_armed(128));
}

#[test]
fn heartbeat_mode_translation_rtl() {
    assert_eq!(heartbeat_to_flight_mode(true, 11), FlightMode::Rtl);
}

#[test]
fn heartbeat_mode_translation() {
    assert_eq!(heartbeat_to_flight_mode(true, 0), FlightMode::Manual);
    assert_eq!(heartbeat_to_flight_mode(true, 12), FlightMode::Loiter);
    assert_eq!(heartbeat_to_flight_mode(true, 99), FlightMode::Unknown);
    assert_eq!(heartbeat_to_flight_mode(false, 15), FlightMode::Unknown);
}

#[test]
fn armed_flag() {
    assert!(base_mode_armed(128));
    assert!(base_mode_armed(128 | 1 | 64));
    assert!(!base_mode_armed(127));
    assert!(!base_mode_armed(0));
}

#[test]
fn adapter_selection() {
    assert_eq!(adapter_kind("mock"), AdapterKind::Mock);
    assert_eq!(adapter_kind("sitl-mavlink"), AdapterKind::Sitl);
    assert_eq!(adapter_kind("ardupilot-mavlink"), AdapterKind::ArduPilot);
    assert_eq!(adapter_kind("px4"), AdapterKind::Mock);
}

#[test]
fn fc_error_messages() {
    assert_eq!(FcError::HeartbeatLost { last_seen_ms: 1500 }.message(), "FC heartbeat lost (last seen 1500ms ago)");
    assert_eq!(FcError::UnsupportedMode(FlightMode::AltHold).message(), "FC mode not supported: AltHold");
    assert_eq!(FcError::Connection("x".to_string()).message(), "FC connection error: x");
    assert_eq!(FcError::Timeout.message(), "FC communication timeout");
}

#[test]
fn fc_config_defaults() {
    let c = FcConfig::default();
    assert_eq!(c.adapter, "mock");
    assert_eq!(c.baud_rate, 115_200);
    assert_eq!(c.command_rate_hz, 10);
    assert_eq!(c.heartbeat_timeout_ms, 1000);
}

#[test]
fn records_commands_in_order() {
    let mut fc = MockFcState::new();
    fc.connect(1_000);
    fc.command(RecordedCommand::Arm).unwrap();
    fc.command(RecordedCommand::SetMode(FlightMode::Guided)).unwrap();
    fc.command(RecordedCommand::SetRoi).unwrap();
    fc.command(RecordedCommand::SetPositionTargetLocalNed).unwrap();
    fc.command(RecordedCommand::Disarm).unwrap();
    assert_eq!(
        fc.commands,
        vec![
            RecordedCommand::Arm,
            RecordedCommand::SetMode(FlightMode::Guided),
            RecordedCommand::SetRoi,
            RecordedCommand::SetPositionTargetLocalNed,
            RecordedCommand::Disarm,
        ]
    );
    assert!(!fc.armed);
    assert_eq!(fc.mode, FlightMode::Guided);
}

#[test]
fn rejects_commands_when_not_connected() {
    let mut fc = MockFcState::new();
    match fc.command(RecordedCommand::Arm) {
        Err(FcError::Connection(m)) => assert_eq!(m, "not connected"),
        other => panic!("unexpected {other:?}"),
    }
    assert!(fc.commands.is_empty());
    assert!(!fc.armed);
}

#[test]
fn heartbeat_is_fresh_after_connect() {
    let mut fc = MockFcState::new();
    fc.connect(5_000);
    assert_eq!(fc.mode, FlightMode::Stabilize);
    assert!(!fc.heartbeat_status_at(5_500).is_stale_at(5_500, 1000));
}

#[test]
fn heartbeat_loss_detected() {
    let mut fc = MockFcState::new();
    fc.connect(5_000);
    fc.simulate_heartbeat_loss();
    let hb = fc.heartbeat_status_at(6_000);
    assert_eq!(hb.last_heartbeat_ms, 6_000 - 60_000);
    assert!(hb.is_stale_at(6_000, 1000));
    fc.heard_at(6_000);
    assert!(!fc.heartbeat_status_at(6_100).is_stale_at(6_100, 1000));
}

#[test]
fn position_targets_ignore_velocity_acceleration_and_yaw_rate() {
    let m = auto_targeting::fc::position_target_type_mask();
    assert_eq!(m, 8 | 16 | 32 | 64 | 128 | 256 | 2048);
    assert_eq!(m, 2552);
}

#[test]
fn rate_limiter_passes_at_most_one_per_interval_in_any_window() {
    let mut rl = CommandRateLimiter::new(10);
    let interval = rl.min_interval_ns();
    assert_eq!(interval, 100_000_000);
    let mut passed: Vec<u64> = Vec::new();
    for k in 0..200u64 {
        let t = k * 7_000_000;
        if rl.try_send_at(t) {
            passed.push(t);
        }
    }
    for w in passed.windows(2) {
        assert!(w[1] - w[0] >= interval);
    }
    let len = 350_000_000u64;
    for start in (0..1_400_000_000u64).step_by(10_000_000) {
        let inside = passed.iter().filter(|&&t| start <= t && t <= start + len).count() as u64;
        assert!(inside <= len / interval + 1);
    }
}
