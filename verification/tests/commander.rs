use auto_targeting::report::{anti_loop_report, health_report, watchdog_table};
use auto_targeting::anti_loop::{GuardConfig, GuardInput, GuardVerdict, OscillationGuard};
use auto_targeting::commander::{Clocks, CommanderCore, CommanderError, CommanderSettings, UpdateStep};
use auto_targeting::types::{FlightMode, SystemState};
use auto_targeting::watchdogs::{WatchdogAction, WatchdogConfig, WatchdogId, WatchdogRegistry};

fn guard_cfg() -> GuardConfig {
    // window 10, threshold 0.5, three oscillations escalate.
    GuardConfig { window: 10, threshold_num: 1, threshold_den: 2, abort_count: 3 }
}

fn cmd(yaw_positive: bool, in_deadband: bool) -> GuardInput {
    GuardInput { in_deadband, yaw_positive, yaw_significant: true }
}

fn settings() -> CommanderSettings {
    CommanderSettings {
        video_loop_wdt_ms: 100,
        inference_loop_wdt_ms: 200,
        tracking_loop_wdt_ms: 50,
        command_loop_wdt_ms: 100,
        guard: GuardConfig { window: 30, threshold_num: 1, threshold_den: 2, abort_count: 3 },
    }
}

fn at(wall_ms: i64, mono_ns: u64) -> Clocks {
    Clocks { wall_ms, mono_ns }
}

// --- watchdogs ---

#[test]
fn fresh_watchdog_not_expired() {
    let mut reg = WatchdogRegistry::new();
    reg.register(WatchdogId::VideoLoop, WatchdogConfig::new(100, WatchdogAction::Degrade));
    let expired = reg.check_expired();
    assert!(expired.is_empty());
}

#[test]
fn unfed_watchdog_expires_at_explicit_time() {
    let mut reg = WatchdogRegistry::new();
    reg.register_at(WatchdogId::VideoLoop, WatchdogConfig::new(50, WatchdogAction::Degrade), 1_000);
    assert!(reg.check_expired_at(1_050).is_empty());
    let expired = reg.check_expired_at(1_080);
    assert_eq!(expired, vec![(WatchdogId::VideoLoop, WatchdogAction::Degrade)]);
    // still expired until fed
    assert_eq!(reg.check_expired_at(5_000).len(), 1);
    reg.feed_at(WatchdogId::VideoLoop, 5_000);
    assert!(reg.check_expired_at(5_040).is_empty());
}

#[test]
fn snapshot_reports_all_watchdogs() {
    let mut reg = WatchdogRegistry::new();
    reg.register(WatchdogId::VideoLoop, WatchdogConfig::new(100, WatchdogAction::Degrade));
    reg.register(WatchdogId::FcHeartbeat, WatchdogConfig::new(1000, WatchdogAction::Abort));
    let snap = reg.snapshot();
    assert_eq!(snap.len(), 2);
    assert!(snap.iter().any(|s| s.id == WatchdogId::VideoLoop));
    assert!(snap.iter().any(|s| s.id == WatchdogId::FcHeartbeat));
}

#[test]
fn feed_unknown_watchdog_is_warn_noop() {
    let mut reg = WatchdogRegistry::new();
    reg.feed(WatchdogId::VideoLoop);
    let expired = reg.check_expired();
    assert!(expired.is_empty());
    assert!(reg.snapshot().is_empty());
}

#[test]
fn feed_count_increments() {
    let mut reg = WatchdogRegistry::new();
    reg.register(WatchdogId::VideoLoop, WatchdogConfig::new(100, WatchdogAction::Degrade));
    reg.feed(WatchdogId::VideoLoop);
    reg.feed(WatchdogId::VideoLoop);
    reg.feed(WatchdogId::VideoLoop);
    let snap = reg.snapshot();
    let v = snap.iter().find(|s| s.id == WatchdogId::VideoLoop).unwrap();
    assert_eq!(v.feed_count, 3);
}

#[test]
fn snapshot_at_reports_elapsed_and_expiry() {
    let mut reg = WatchdogRegistry::new();
    reg.register_at(WatchdogId::CommandLoop, WatchdogConfig::new(100, WatchdogAction::Abort), 0);
    reg.register_at(WatchdogId::VideoLoop, WatchdogConfig::new(300, WatchdogAction::Degrade), 0);
    let snap = reg.snapshot_at(150);
    assert_eq!(snap[0].id, WatchdogId::VideoLoop);
    assert_eq!(snap[0].elapsed_ms, 150);
    assert!(!snap[0].expired);
    assert_eq!(snap[1].id, WatchdogId::CommandLoop);
    assert!(snap[1].expired);
    assert_eq!(snap[1].timeout_ms, 100);
}

// --- oscillation guard ---

#[test]
fn suppresses_within_deadband() {
    let mut guard = OscillationGuard::new(guard_cfg());
    assert_eq!(guard.process(cmd(true, true)), GuardVerdict::Suppress);
    assert_eq!(guard.snapshot().suppressed_count, 1);
}

#[test]
fn allows_outside_deadband() {
    let mut guard = OscillationGuard::new(guard_cfg());
    assert_eq!(guard.process(cmd(true, false)), GuardVerdict::Allow);
    assert_eq!(guard.snapshot().allowed_count, 1);
    assert_eq!(guard.snapshot().history_len, 1);
}

#[test]
fn detects_oscillation_on_sign_changes() {
    let mut guard = OscillationGuard::new(guard_cfg());
    for _ in 0..3 {
        guard.process(cmd(true, false));
        guard.process(cmd(false, false));
    }
    let snap = guard.snapshot();
    assert!(snap.oscillation_trigger_count >= 1, "got {}", snap.oscillation_trigger_count);
}

#[test]
fn freeze_suppresses_subsequent_commands() {
    let mut guard = OscillationGuard::new(guard_cfg());
    for _ in 0..3 {
        guard.process(cmd(true, false));
        guard.process(cmd(false, false));
    }
    assert_eq!(guard.process(cmd(true, false)), GuardVerdict::Suppress);
}

#[test]
fn does_not_trigger_on_steady_direction() {
    let mut guard = OscillationGuard::new(guard_cfg());
    for _ in 0..15 {
        assert_eq!(guard.process(cmd(true, false)), GuardVerdict::Allow);
    }
    let snap = guard.snapshot();
    assert_eq!(snap.oscillation_trigger_count, 0);
    assert_eq!(snap.history_len, 10);
}

#[test]
fn oscillation_freezes_for_one_second_then_escalates() {
    let mut guard = OscillationGuard::new(guard_cfg());
    let s = 1_000_000_000u64;
    assert_eq!(guard.process_at(0, cmd(true, false)), GuardVerdict::Allow);
    assert_eq!(guard.process_at(10, cmd(false, false)), GuardVerdict::Degrade);
    assert!(guard.snapshot().frozen);
    assert_eq!(guard.snapshot().history_len, 0);
    assert_eq!(guard.process_at(s - 1, cmd(true, false)), GuardVerdict::Suppress);
    // after the freeze: a fresh history
    assert_eq!(guard.process_at(s + 10, cmd(true, false)), GuardVerdict::Allow);
    assert_eq!(guard.process_at(s + 20, cmd(false, false)), GuardVerdict::Degrade);
    assert_eq!(guard.process_at(2 * s + 30, cmd(true, false)), GuardVerdict::Allow);
    // third oscillation within five seconds escalates
    assert_eq!(guard.process_at(2 * s + 40, cmd(false, false)), GuardVerdict::Abort);
    assert_eq!(guard.snapshot().oscillation_trigger_count, 3);
}

#[test]
fn insignificant_yaw_does_not_count_as_reversal() {
    let mut guard = OscillationGuard::new(guard_cfg());
    assert_eq!(guard.process_at(0, cmd(true, false)), GuardVerdict::Allow);
    let small = GuardInput { in_deadband: false, yaw_positive: false, yaw_significant: false };
    assert_eq!(guard.process_at(1, small), GuardVerdict::Allow);
    assert_eq!(guard.snapshot().oscillation_trigger_count, 0);
}

// --- commander core ---

#[test]
fn new_commander_starts_in_idle() {
    let c = CommanderCore::new(settings(), 0);
    assert_eq!(c.state(), SystemState::Idle);
    assert!(!c.connected());
    assert_eq!(c.transition_count(), 0);
    assert_eq!(c.active_target_id(), None);
}

#[test]
fn connect_transitions_to_armed() {
    let mut c = CommanderCore::new(settings(), 0);
    c.on_connected(at(0, 0)).unwrap();
    assert_eq!(c.state(), SystemState::Armed);
    assert!(c.connected());
    assert!(c.watchdog_registry().is_registered(WatchdogId::FcHeartbeat));
}

#[test]
fn select_target_requires_scanning() {
    let mut c = CommanderCore::new(settings(), 0);
    c.on_connected(at(0, 0)).unwrap();
    assert!(matches!(c.select_target(7), Err(CommanderError::InvalidState { .. })));
    c.start_scanning().unwrap();
    c.select_target(7).unwrap();
    assert_eq!(c.state(), SystemState::Tracking);
    assert_eq!(c.active_target_id(), Some(7));
}

#[test]
fn oscillating_corrections_degrade_then_abort() {
    let mut c = CommanderCore::new(settings(), 0);
    c.on_connected(at(0, 0)).unwrap();
    c.start_scanning().unwrap();
    c.select_target(1).unwrap();
    let s = 1_000_000_000u64;
    assert_eq!(c.update_begin(at(0, 0), Some(cmd(true, false))), UpdateStep::SendCorrection);
    assert!(c.rate_limit_correction(at(0, 0)));
    c.finish_cycle(at(0, 0));
    assert_eq!(c.update_begin(at(1, 10), Some(cmd(false, false))), UpdateStep::Completed);
    assert_eq!(c.state(), SystemState::TrackingDegraded);
    assert_eq!(c.update_begin(at(2, s + 10), Some(cmd(true, false))), UpdateStep::SendCorrection);
    c.finish_cycle(at(2, s + 10));
    assert_eq!(c.update_begin(at(3, s + 20), Some(cmd(false, false))), UpdateStep::Completed);
    assert_eq!(c.update_begin(at(4, 2 * s + 30), Some(cmd(true, false))), UpdateStep::SendCorrection);
    c.finish_cycle(at(4, 2 * s + 30));
    assert_eq!(c.update_begin(at(5, 2 * s + 40), Some(cmd(false, false))), UpdateStep::AbortRequested);
    assert_eq!(c.state(), SystemState::Abort);
}

#[test]
fn watchdog_expiry_degrades_tracking() {
    let mut c = CommanderCore::new(settings(), 0);
    c.on_connected(at(0, 0)).unwrap();
    c.start_scanning().unwrap();
    c.select_target(3).unwrap();
    c.feed_video_watchdog(at(0, 0));
    // the tracking watchdog (50 ms) runs out first
    let expired = c.process_watchdog_expiries(at(60, 0));
    assert_eq!(expired, vec![(WatchdogId::TrackingLoop, WatchdogAction::Degrade)]);
    assert_eq!(c.state(), SystemState::TrackingDegraded);
    let h = c.health_snapshot(at(60, 0), true, FlightMode::Guided, false);
    assert_eq!(h.state, SystemState::TrackingDegraded);
    assert_eq!(h.active_target_id, Some(3));
}

#[test]
fn health_report_lists_every_item() {
    let mut c = CommanderCore::new(settings(), 0);
    c.on_connected(at(0, 0)).unwrap();
    let h = c.health_snapshot(at(20, 0), true, FlightMode::Guided, false);
    let text = health_report(&h);
    let expected = "=== Commander Health ===\n\
State:          ARMED (transitions: 1)\n\
Connected:      true\n\
Armed:          true\n\
FC mode:        Guided\n\
FC heartbeat:   OK\n\
Active target:  none\n\
Rate limiter:   sent=0 dropped=0\n\
Last command:   never\n\
Watchdogs:\n\
\x20 video_loop      elapsed=   20ms / limit=  100ms expired=false\n\
\x20 inference_loop  elapsed=   20ms / limit=  200ms expired=false\n\
\x20 tracking_loop   elapsed=   20ms / limit=   50ms expired=false\n\
\x20 command_loop    elapsed=   20ms / limit=  100ms expired=false\n\
\x20 fc_heartbeat    elapsed=   20ms / limit= 1000ms expired=false\n\
Anti-loop:      allowed=0 suppressed=0 oscillations=0\n";
    assert_eq!(text, expected);
}

#[test]
fn console_tables() {
    let mut reg = WatchdogRegistry::new();
    reg.register_at(WatchdogId::VideoLoop, WatchdogConfig::new(100, WatchdogAction::Degrade), 0);
    reg.register_at(WatchdogId::FcHeartbeat, WatchdogConfig::new(1000, WatchdogAction::Abort), 0);
    reg.feed_at(WatchdogId::FcHeartbeat, 10);
    let lines = watchdog_table(&reg.snapshot_at(150));
    assert_eq!(
        lines,
        vec![
            "\n=== Watchdogs ===".to_string(),
            format!("{:<15} {:>10} {:>10} {:>10} {:>10}", "NAME", "ELAPSED", "LIMIT", "EXPIRED", "FEEDS"),
            format!("{:<15} {:>8}ms {:>8}ms {:>10} {:>10}", "video_loop", 150, 100, true, 0),
            format!("{:<15} {:>8}ms {:>8}ms {:>10} {:>10}", "fc_heartbeat", 140, 1000, false, 1),
            "\nExpired: 1/2".to_string(),
        ]
    );
    let mut guard = OscillationGuard::new(guard_cfg());
    guard.process_at(0, cmd(true, false));
    let report = anti_loop_report(&guard.snapshot());
    assert_eq!(report[1], "Frozen:                 false");
    assert_eq!(report[2], "Commands allowed:       1");
    assert_eq!(report[5], "History length:         1");
}

#[test]
fn guard_counts_every_command_of_a_run_once() {
    let mut guard = OscillationGuard::new(guard_cfg());
    let s = 1_000_000_000u64;
    let mut allowed = 0u64;
    let mut suppressed = 0u64;
    let mut triggered = 0u64;
    let mut n = 0u64;
    for k in 0..40u64 {
        let v = guard.process_at(k * s / 4, cmd(k % 3 != 0, k % 7 == 0));
        n += 1;
        match v {
            GuardVerdict::Allow => allowed += 1,
            GuardVerdict::Suppress => suppressed += 1,
            GuardVerdict::Degrade | GuardVerdict::Abort => triggered += 1,
        }
        let snap = guard.snapshot();
        assert!(snap.history_len <= 10);
        assert_eq!(snap.allowed_count, allowed);
        assert_eq!(snap.suppressed_count, suppressed);
        assert_eq!(snap.oscillation_trigger_count, triggered);
        assert_eq!(snap.allowed_count + snap.suppressed_count + snap.oscillation_trigger_count, n);
    }
    assert!(triggered > 0 && allowed > 0 && suppressed > 0);
}
