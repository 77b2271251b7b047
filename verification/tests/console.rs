use auto_targeting::bus_console::{
    bus_command, bus_request, ends_bus_session, is_counted, read_bus_console_line, sent_confirmation, BusConsoleKind,
};
use auto_targeting::repl::{apply_command, is_session_end, parse_command, ReplCommand};
use auto_targeting::state_machine::StateMachine;
use auto_targeting::text::{read_u64, split_words, trim_text, white_space, IntParseError};
use auto_targeting::types::{FlightMode, SystemState};
use auto_targeting::watchdogs::{WatchdogAction, WatchdogConfig, WatchdogId, WatchdogRegistry};

fn run(line: &str, sm: &mut StateMachine, wd: &mut WatchdogRegistry) -> Result<Vec<String>, String> {
    let parsed = parse_command(line)?;
    let out = apply_command(sm, wd, parsed.command);
    match out.error {
        Some(e) => Err(e),
        None => Ok(out.lines),
    }
}

fn armed_console() -> (StateMachine, WatchdogRegistry) {
    let mut sm = StateMachine::new(SystemState::Idle);
    let mut wd = WatchdogRegistry::new();
    run("arm", &mut sm, &mut wd).unwrap();
    (sm, wd)
}

#[test]
fn words_split_on_unicode_white_space() {
    let w = split_words("  select-target\t42 \u{3000}x\n");
    assert_eq!(w, vec!["select-target".to_string(), "42".to_string(), "x".to_string()]);
    assert!(split_words("").is_empty());
    assert!(split_words(" \u{85}\u{a0} ").is_empty());
    assert_eq!(split_words("abc"), vec!["abc".to_string()]);
    assert!(white_space('\u{2009}'));
    assert!(!white_space('\u{200b}'));
    assert!(!white_space('a'));
}

#[test]
fn trim_removes_white_space_at_both_ends() {
    assert_eq!(trim_text("  quit \n"), "quit");
    assert_eq!(trim_text("a b"), "a b");
    assert_eq!(trim_text(" \t "), "");
    assert_eq!(trim_text("\u{a0}x\u{2028}"), "x");
    assert!(is_session_end(&trim_text(" exit ")));
    assert!(!is_session_end(&trim_text("q")));
    assert!(!is_session_end(&trim_text("quit now")));
}

#[test]
fn read_u64_reports_why_it_refuses() {
    assert_eq!(read_u64("42"), Ok(42));
    assert_eq!(read_u64("+7"), Ok(7));
    assert_eq!(read_u64("18446744073709551615"), Ok(u64::MAX));
    assert_eq!(read_u64(""), Err(IntParseError::Empty));
    assert_eq!(read_u64("+"), Err(IntParseError::InvalidDigit));
    assert_eq!(read_u64("-5"), Err(IntParseError::InvalidDigit));
    assert_eq!(read_u64("12a"), Err(IntParseError::InvalidDigit));
    assert_eq!(read_u64("18446744073709551616"), Err(IntParseError::PosOverflow));
    assert_eq!(read_u64("99999999999999999999x"), Err(IntParseError::PosOverflow));
    for s in ["", "+", "-5", "12a", "18446744073709551616", "0", "+0", "007"] {
        assert_eq!(read_u64(s).ok(), s.parse::<u64>().ok(), "{s}");
    }
    assert_eq!(IntParseError::InvalidDigit.message(), "invalid digit found in string");
}

#[test]
fn help_command_works() {
    assert_eq!(parse_command("help").unwrap().command, ReplCommand::Help);
    assert_eq!(parse_command("h").unwrap().command, ReplCommand::Help);
    assert_eq!(parse_command("?").unwrap().command, ReplCommand::Help);
}

#[test]
fn status_command_works() {
    assert_eq!(parse_command("status").unwrap().command, ReplCommand::Status);
    assert_eq!(parse_command("st").unwrap().command, ReplCommand::Status);
}

#[test]
fn unknown_command_returns_error() {
    let err = parse_command("nonexistent").unwrap_err();
    assert!(err.contains("unknown command"));
    assert_eq!(err, "unknown command: 'nonexistent' \u{2014} type 'help' for list");
}

#[test]
fn arm_command_transitions_state() {
    let (sm, _wd) = armed_console();
    assert_eq!(sm.state(), SystemState::Armed);
}

#[test]
fn scan_after_arm_works() {
    let (mut sm, mut wd) = armed_console();
    let lines = run("scan", &mut sm, &mut wd).unwrap();
    assert_eq!(lines, vec!["OK: scanning for targets".to_string()]);
    assert_eq!(sm.state(), SystemState::Scanning);
}

#[test]
fn select_target_transitions_to_tracking() {
    let (mut sm, mut wd) = armed_console();
    run("scan", &mut sm, &mut wd).unwrap();
    let lines = run("select-target 42", &mut sm, &mut wd).unwrap();
    assert_eq!(sm.state(), SystemState::Tracking);
    assert_eq!(
        lines,
        vec![
            "OK: target 42 selected \u{2014} transition to TARGET_SELECTED".to_string(),
            "OK: lock acquired \u{2014} now TRACKING target 42".to_string(),
        ]
    );
    assert_eq!(sm.transition_count(), 4);
}

#[test]
fn select_target_needs_scanning() {
    let (mut sm, mut wd) = armed_console();
    let err = run("select 7", &mut sm, &mut wd).unwrap_err();
    assert_eq!(err, "state transition failed: invalid transition: ARMED -> TARGET_SELECTED");
    assert_eq!(sm.state(), SystemState::Armed);
}

#[test]
fn select_target_rejects_bad_ids() {
    assert_eq!(parse_command("select-target").unwrap_err(), "usage: select-target <id>");
    assert_eq!(
        parse_command("select-target x1").unwrap_err(),
        "invalid target id 'x1': invalid digit found in string"
    );
    assert_eq!(
        parse_command("select 99999999999999999999").unwrap_err(),
        "invalid target id '99999999999999999999': number too large to fit in target type"
    );
    assert_eq!(parse_command("select +9").unwrap().command, ReplCommand::SelectTarget(9));
}

#[test]
fn abort_forces_state() {
    let (mut sm, mut wd) = armed_console();
    run("scan", &mut sm, &mut wd).unwrap();
    let lines = run("abort", &mut sm, &mut wd).unwrap();
    assert_eq!(lines, vec!["!! ABORT !! \u{2014} state set to ABORT".to_string()]);
    assert_eq!(sm.state(), SystemState::Abort);
}

#[test]
fn reset_only_works_from_abort() {
    let (mut sm, mut wd) = armed_console();
    let err = run("reset", &mut sm, &mut wd).unwrap_err();
    assert_eq!(err, "reset only valid from ABORT state (current: ARMED)");
    run("abort", &mut sm, &mut wd).unwrap();
    assert_eq!(run("reset", &mut sm, &mut wd).unwrap(), vec!["OK: reset to IDLE".to_string()]);
    assert_eq!(sm.state(), SystemState::Idle);
}

#[test]
fn set_mode_parses_correctly() {
    assert_eq!(parse_command("set-mode guided").unwrap().command, ReplCommand::SetMode(FlightMode::Guided));
    assert_eq!(parse_command("mode RTL").unwrap().command, ReplCommand::SetMode(FlightMode::Rtl));
    let (mut sm, mut wd) = armed_console();
    let lines = run("set-mode guided", &mut sm, &mut wd).unwrap();
    assert_eq!(lines, vec!["OK: mode set to Guided".to_string()]);
    assert_eq!(sm.state(), SystemState::Armed);
}

#[test]
fn set_mode_invalid_returns_error() {
    assert_eq!(parse_command("set-mode nonsense").unwrap_err(), "unknown flight mode: nonsense");
    assert_eq!(
        parse_command("set-mode").unwrap_err(),
        "usage: set-mode <guided|rtl|loiter|manual|auto>"
    );
}

#[test]
fn feed_watchdog_works() {
    let mut sm = StateMachine::new(SystemState::Idle);
    let mut wd = WatchdogRegistry::new();
    wd.register(WatchdogId::VideoLoop, WatchdogConfig::new(100, WatchdogAction::Degrade));
    let lines = run("feed-watchdog video", &mut sm, &mut wd).unwrap();
    assert_eq!(lines, vec!["OK: fed VideoLoop".to_string()]);
    let snap = wd.snapshot();
    let v = snap.iter().find(|w| w.id == WatchdogId::VideoLoop).unwrap();
    assert_eq!(v.feed_count, 1);
    assert_eq!(parse_command("feed-watchdog fc").unwrap().command, ReplCommand::FeedWatchdog(WatchdogId::FcHeartbeat));
    assert_eq!(parse_command("feed-watchdog x").unwrap_err(), "unknown watchdog: x");
}

#[test]
fn simulate_commands_parse() {
    let p = parse_command("simulate-attitude 0.1 0.2 1.5").unwrap();
    assert_eq!(p.command, ReplCommand::SimulateAttitude);
    assert_eq!(p.args, vec!["0.1".to_string(), "0.2".to_string(), "1.5".to_string()]);
    assert_eq!(
        parse_command("simulate-attitude 0.1").unwrap_err(),
        "usage: simulate-attitude <roll> <pitch> <yaw>"
    );
    assert_eq!(
        parse_command("simulate-heartbeat-loss").unwrap().command,
        ReplCommand::SimulateHeartbeatLoss
    );
}

#[test]
fn watchdogs_command_does_not_panic() {
    let mut sm = StateMachine::new(SystemState::Idle);
    let mut wd = WatchdogRegistry::new();
    assert_eq!(parse_command("wd").unwrap().command, ReplCommand::Watchdogs);
    assert!(run("watchdogs", &mut sm, &mut wd).unwrap().is_empty());
}

#[test]
fn anti_loop_command_does_not_panic() {
    let mut sm = StateMachine::new(SystemState::Idle);
    let mut wd = WatchdogRegistry::new();
    assert_eq!(parse_command("al").unwrap().command, ReplCommand::AntiLoop);
    assert!(run("anti-loop", &mut sm, &mut wd).unwrap().is_empty());
}

#[test]
fn quit_and_blank_lines() {
    let mut sm = StateMachine::new(SystemState::Idle);
    let mut wd = WatchdogRegistry::new();
    assert_eq!(run("q", &mut sm, &mut wd).unwrap(), vec!["Bye.".to_string()]);
    let p = parse_command("   ").unwrap();
    assert_eq!(p.command, ReplCommand::Blank);
    assert!(p.args.is_empty());
}

#[test]
fn bus_console_reads_commands() {
    let r = read_bus_console_line("mode guided");
    assert_eq!(r.kind, BusConsoleKind::Mode);
    assert_eq!(r.args, vec!["guided".to_string()]);
    assert!(r.reply.is_none());
    assert_eq!(bus_command(r.kind), Some("set_mode"));
    assert_eq!(sent_confirmation(r.kind, &r.args[0]).unwrap(), "-> set_mode guided");

    let r = read_bus_console_line("mode");
    assert_eq!(r.kind, BusConsoleKind::ModeUsage);
    assert_eq!(r.reply.unwrap(), "usage: mode <guided|rtl|loiter|auto|manual|stabilize>");

    let r = read_bus_console_line("set-roi 1.5");
    assert_eq!(r.kind, BusConsoleKind::SetRoiUsage);
    assert_eq!(r.reply.unwrap(), "usage: set-roi <lat> <lon> [alt]");
    assert_eq!(read_bus_console_line("set-roi 1.5 2.5").kind, BusConsoleKind::SetRoi);

    assert_eq!(read_bus_console_line("").kind, BusConsoleKind::Nothing);
    assert_eq!(read_bus_console_line("tele").kind, BusConsoleKind::Telemetry);
    assert_eq!(read_bus_console_line("exit").kind, BusConsoleKind::Quit);
    let r = read_bus_console_line("fly");
    assert_eq!(r.kind, BusConsoleKind::Unknown);
    assert_eq!(r.reply.unwrap(), "неизвестная команда: fly (help — список)");
    assert!(read_bus_console_line("?").reply.unwrap().starts_with("status tracks telemetry"));
}

#[test]
fn bus_console_confirmations() {
    assert_eq!(sent_confirmation(BusConsoleKind::Arm, "").unwrap(), "-> arm отправлена");
    assert_eq!(sent_confirmation(BusConsoleKind::Disarm, "").unwrap(), "-> disarm отправлена");
    assert_eq!(sent_confirmation(BusConsoleKind::Abort, "").unwrap(), "-> ABORT: RTL отправлен");
    assert!(sent_confirmation(BusConsoleKind::Status, "").is_none());
    assert_eq!(bus_command(BusConsoleKind::Abort), Some("set_mode"));
    assert_eq!(bus_command(BusConsoleKind::Arm), Some("arm"));
    assert_eq!(bus_command(BusConsoleKind::Tracks), None);
    assert!(is_counted(BusConsoleKind::SetRoi));
    assert!(!is_counted(BusConsoleKind::Abort));
}

#[test]
fn bus_console_requests_carry_their_arguments() {
    let r = read_bus_console_line("mode guided");
    let (cmd, args) = bus_request(r.kind, &r.args).unwrap();
    assert_eq!(cmd, "set_mode");
    assert_eq!(args, vec![("mode".to_string(), "guided".to_string())]);

    let r = read_bus_console_line("abort now");
    let (cmd, args) = bus_request(r.kind, &r.args).unwrap();
    assert_eq!(cmd, "set_mode");
    assert_eq!(args, vec![("mode".to_string(), "rtl".to_string())]);

    let r = read_bus_console_line("arm");
    assert_eq!(bus_request(r.kind, &r.args), Some(("arm", vec![])));
    let r = read_bus_console_line("disarm");
    assert_eq!(bus_request(r.kind, &r.args), Some(("disarm", vec![])));

    for line in ["mode", "status", "tracks", "quit", "fly", "", "set-roi 1"] {
        let r = read_bus_console_line(line);
        assert_eq!(bus_request(r.kind, &r.args), None, "{line}");
    }
}

#[test]
fn bus_console_quit_ends_the_session() {
    for line in ["quit", "exit", "q"] {
        assert!(ends_bus_session(read_bus_console_line(line).kind));
    }
    for line in ["abort", "", "status", "quitting"] {
        assert!(!ends_bus_session(read_bus_console_line(line).kind));
    }
}
