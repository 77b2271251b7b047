//! The operator console's logic: reading a command line into a command, and
//! what each command does to the state machine and the watchdogs and which
//! lines it prints. The console loop itself (reading lines, talking to the
//! flight controller, printing) stays with the program.

use vstd::prelude::*;
use vstd::string::StringExecFns;
use crate::cli::{lower_text, mode_keyword, parse_flight_mode};
use crate::state_machine::{
    StateMachine,
    StateTransitionError,
    checked_step,
    transition_allowed,
    transition_error_text,
};
use crate::text::{
    ascii_chars,
    dec_bytes,
    decimal_string,
    int_error_text,
    read_u64,
    split_words,
    str_eq,
    u64_from_str,
    words,
};
use crate::types::{FlightMode, SystemState, flight_mode_name, state_name};
use crate::watchdogs::{WatchdogId, WatchdogRegistry, fed_entry};

verus! {

/// A console command, as read from one input line.
#[derive(Debug, Clone, Copy, PartialEq, Eq, Structural)]
pub enum ReplCommand {
    /// A line without words.
    Blank,
    Help,
    Status,
    Arm,
    Disarm,
    SetMode(FlightMode),
    Scan,
    SelectTarget(u64),
    Abort,
    Reset,
    Watchdogs,
    AntiLoop,
    FeedWatchdog(WatchdogId),
    SimulateHeartbeatLoss,
    /// Inject an attitude; the three angles are the first three arguments.
    SimulateAttitude,
    Quit,
}

/// A command together with the words that followed the command word.
#[derive(Debug, Clone)]
pub struct ParsedCommand {
    pub command: ReplCommand,
    pub args: Vec<String>,
}

/// The watchdog a `feed-watchdog` argument names.
pub open spec fn watchdog_keyword(k: Seq<char>) -> Option<WatchdogId> {
    if k == "video"@ {
        Some(WatchdogId::VideoLoop)
    } else if k == "inference"@ {
        Some(WatchdogId::InferenceLoop)
    } else if k == "tracking"@ {
        Some(WatchdogId::TrackingLoop)
    } else if k == "command"@ {
        Some(WatchdogId::CommandLoop)
    } else if k == "heartbeat"@ || k == "fc"@ {
        Some(WatchdogId::FcHeartbeat)
    } else {
        None
    }
}

/// The name a watchdog is printed under by the console (its variant name).
pub open spec fn watchdog_variant_name(id: WatchdogId) -> Seq<char> {
    match id {
        WatchdogId::VideoLoop => "VideoLoop"@,
        WatchdogId::InferenceLoop => "InferenceLoop"@,
        WatchdogId::TrackingLoop => "TrackingLoop"@,
        WatchdogId::CommandLoop => "CommandLoop"@,
        WatchdogId::FcHeartbeat => "FcHeartbeat"@,
    }
}

/// The command that the words of a line make, or the error the console
/// reports for them.
pub open spec fn command_of(w: Seq<Seq<char>>) -> Result<ReplCommand, Seq<char>> {
    if w.len() == 0 {
        Ok(ReplCommand::Blank)
    } else {
        let c = w[0];
        let args = w.drop_first();
        if c == "help"@ || c == "h"@ || c == "?"@ {
            Ok(ReplCommand::Help)
        } else if c == "status"@ || c == "st"@ {
            Ok(ReplCommand::Status)
        } else if c == "arm"@ {
            Ok(ReplCommand::Arm)
        } else if c == "disarm"@ {
            Ok(ReplCommand::Disarm)
        } else if c == "set-mode"@ || c == "mode"@ {
            if args.len() == 0 {
                Err("usage: set-mode <guided|rtl|loiter|manual|auto>"@)
            } else {
                match mode_keyword(lower_text(args[0])) {
                    Some(m) => Ok(ReplCommand::SetMode(m)),
                    None => Err("unknown flight mode: "@ + lower_text(args[0])),
                }
            }
        } else if c == "scan"@ {
            Ok(ReplCommand::Scan)
        } else if c == "select-target"@ || c == "select"@ {
            if args.len() == 0 {
                Err("usage: select-target <id>"@)
            } else {
                match u64_from_str(args[0]) {
                    Ok(id) => Ok(ReplCommand::SelectTarget(id)),
                    Err(e) => Err("invalid target id '"@ + args[0] + "': "@ + int_error_text(e)),
                }
            }
        } else if c == "abort"@ {
            Ok(ReplCommand::Abort)
        } else if c == "reset"@ {
            Ok(ReplCommand::Reset)
        } else if c == "watchdogs"@ || c == "wd"@ {
            Ok(ReplCommand::Watchdogs)
        } else if c == "anti-loop"@ || c == "al"@ {
            Ok(ReplCommand::AntiLoop)
        } else if c == "feed-watchdog"@ {
            if args.len() == 0 {
                Err("usage: feed-watchdog <video|inference|tracking|command|heartbeat>"@)
            } else {
                match watchdog_keyword(args[0]) {
                    Some(id) => Ok(ReplCommand::FeedWatchdog(id)),
                    None => Err("unknown watchdog: "@ + args[0]),
                }
            }
        } else if c == "simulate-heartbeat-loss"@ {
            Ok(ReplCommand::SimulateHeartbeatLoss)
        } else if c == "simulate-attitude"@ {
            if args.len() < 3 {
                Err("usage: simulate-attitude <roll> <pitch> <yaw>"@)
            } else {
                Ok(ReplCommand::SimulateAttitude)
            }
        } else if c == "quit"@ || c == "exit"@ || c == "q"@ {
            Ok(ReplCommand::Quit)
        } else {
            Err("unknown command: '"@ + c + "' \u{2014} type 'help' for list"@)
        }
    }
}

/// Reads a `feed-watchdog` argument.
fn watchdog_from_keyword(k: &str) -> (r: Option<WatchdogId>)
    ensures
        r == watchdog_keyword(k@),
{
    if str_eq(k, "video") {
        Some(WatchdogId::VideoLoop)
    } else if str_eq(k, "inference") {
        Some(WatchdogId::InferenceLoop)
    } else if str_eq(k, "tracking") {
        Some(WatchdogId::TrackingLoop)
    } else if str_eq(k, "command") {
        Some(WatchdogId::CommandLoop)
    } else if str_eq(k, "heartbeat") || str_eq(k, "fc") {
        Some(WatchdogId::FcHeartbeat)
    } else {
        None
    }
}

/// The name a watchdog is printed under by the console.
pub fn watchdog_variant_str(id: WatchdogId) -> (s: &'static str)
    ensures
        s@ == watchdog_variant_name(id),
{
    match id {
        WatchdogId::VideoLoop => "VideoLoop",
        WatchdogId::InferenceLoop => "InferenceLoop",
        WatchdogId::TrackingLoop => "TrackingLoop",
        WatchdogId::CommandLoop => "CommandLoop",
        WatchdogId::FcHeartbeat => "FcHeartbeat",
    }
}

/// Reads one console line into a command and the words after the command
/// word (none for a blank line). Commands that need an argument refuse to
/// run without it, with the usage line as the error.
pub fn parse_command(input: &str) -> (r: Result<ParsedCommand, String>)
    ensures
        match command_of(words(input@)) {
            Ok(c) => r matches Ok(p) && p.command == c && (if words(input@).len() == 0 {
                p.args@.len() == 0
            } else {
                &&& p.args@.len() + 1 == words(input@).len()
                &&& forall|k: int|
                    0 <= k < p.args@.len() ==> #[trigger] p.args@[k]@ == words(input@)[k + 1]
            }),
            Err(m) => r matches Err(e) && e@ == m,
        },
{
    let mut ws = split_words(input);
    let ghost w = words(input@);
    let ghost all = ws@;
    if ws.len() == 0 {
        return Ok(ParsedCommand { command: ReplCommand::Blank, args: ws });
    }
    let first = ws.remove(0);
    proof {
        assert(first@ == w[0]);
        assert forall|k: int| 0 <= k < ws@.len() implies #[trigger] ws@[k]@ == w.drop_first()[k] by {
            assert(ws@[k] == all[k + 1]);
        }
    }
    let c = first.as_str();
    let command = if str_eq(c, "help") || str_eq(c, "h") || str_eq(c, "?") {
        ReplCommand::Help
    } else if str_eq(c, "status") || str_eq(c, "st") {
        ReplCommand::Status
    } else if str_eq(c, "arm") {
        ReplCommand::Arm
    } else if str_eq(c, "disarm") {
        ReplCommand::Disarm
    } else if str_eq(c, "set-mode") || str_eq(c, "mode") {
        if ws.len() == 0 {
            return Err("usage: set-mode <guided|rtl|loiter|manual|auto>".to_owned());
        }
        match parse_flight_mode(ws[0].as_str()) {
            Ok(m) => ReplCommand::SetMode(m),
            Err(e) => {
                return Err(e.message);
            },
        }
    } else if str_eq(c, "scan") {
        ReplCommand::Scan
    } else if str_eq(c, "select-target") || str_eq(c, "select") {
        if ws.len() == 0 {
            return Err("usage: select-target <id>".to_owned());
        }
        match read_u64(ws[0].as_str()) {
            Ok(id) => ReplCommand::SelectTarget(id),
            Err(e) => {
                let mut m = "invalid target id '".to_owned();
                m.append(ws[0].as_str());
                m.append("': ");
                let t = e.message();
                m.append(t.as_str());
                return Err(m);
            },
        }
    } else if str_eq(c, "abort") {
        ReplCommand::Abort
    } else if str_eq(c, "reset") {
        ReplCommand::Reset
    } else if str_eq(c, "watchdogs") || str_eq(c, "wd") {
        ReplCommand::Watchdogs
    } else if str_eq(c, "anti-loop") || str_eq(c, "al") {
        ReplCommand::AntiLoop
    } else if str_eq(c, "feed-watchdog") {
        if ws.len() == 0 {
            return Err(
                "usage: feed-watchdog <video|inference|tracking|command|heartbeat>".to_owned(),
            );
        }
        match watchdog_from_keyword(ws[0].as_str()) {
            Some(id) => ReplCommand::FeedWatchdog(id),
            None => {
                let mut m = "unknown watchdog: ".to_owned();
                m.append(ws[0].as_str());
                return Err(m);
            },
        }
    } else if str_eq(c, "simulate-heartbeat-loss") {
        ReplCommand::SimulateHeartbeatLoss
    } else if str_eq(c, "simulate-attitude") {
        if ws.len() < 3 {
            return Err("usage: simulate-attitude <roll> <pitch> <yaw>".to_owned());
        }
        ReplCommand::SimulateAttitude
    } else if str_eq(c, "quit") || str_eq(c, "exit") || str_eq(c, "q") {
        ReplCommand::Quit
    } else {
        let mut m = "unknown command: '".to_owned();
        m.append(c);
        m.append("' \u{2014} type 'help' for list");
        return Err(m);
    };
    Ok(ParsedCommand { command, args: ws })
}

/// What a command printed, and the error it ended with, if any (printed
/// after the lines).
#[derive(Debug, Clone)]
pub struct ReplOutcome {
    pub lines: Vec<String>,
    pub error: Option<String>,
}

/// The characters of each line.
pub open spec fn lines_view(lines: Seq<String>) -> Seq<Seq<char>> {
    lines.map_values(|l: String| l@)
}

/// The characters of an optional error.
pub open spec fn error_view(e: Option<String>) -> Option<Seq<char>> {
    match e {
        Some(s) => Some(s@),
        None => None,
    }
}

/// Decimal text of a number.
pub open spec fn dec_text(n: u64) -> Seq<char> {
    ascii_chars(dec_bytes(n as nat))
}

/// What a console command does, from the state and transition count it
/// finds: the new state, the new count, the lines printed and the error
/// reported. Commands whose output only reports on other parts of the
/// system (help, status, the watchdog and guard tables, the attitude
/// injection) print nothing here and change nothing.
pub open spec fn repl_effect(state: SystemState, count: int, cmd: ReplCommand) -> (
    SystemState,
    int,
    Seq<Seq<char>>,
    Option<Seq<char>>,
) {
    match cmd {
        ReplCommand::Arm => {
            let (s2, c2, _ok) = checked_step(state, count, SystemState::Armed);
            (s2, c2, seq!["OK: armed"@], None)
        },
        ReplCommand::Disarm => {
            let (s2, c2, _ok) = checked_step(state, count, SystemState::Idle);
            (s2, c2, seq!["OK: disarmed"@], None)
        },
        ReplCommand::SetMode(m) => (
            state,
            count,
            seq!["OK: mode set to "@ + flight_mode_name(m)],
            None,
        ),
        ReplCommand::Scan => {
            let (s2, c2, ok) = checked_step(state, count, SystemState::Scanning);
            if ok {
                (s2, c2, seq!["OK: scanning for targets"@], None)
            } else {
                (
                    s2,
                    c2,
                    Seq::empty(),
                    Some(
                        "state transition failed: "@ + transition_error_text(
                            StateTransitionError::Invalid { from: state, to: SystemState::Scanning },
                        ),
                    ),
                )
            }
        },
        ReplCommand::SelectTarget(id) => {
            let (s2, c2, ok) = checked_step(state, count, SystemState::TargetSelected);
            if !ok {
                (
                    s2,
                    c2,
                    Seq::empty(),
                    Some(
                        "state transition failed: "@ + transition_error_text(
                            StateTransitionError::Invalid {
                                from: state,
                                to: SystemState::TargetSelected,
                            },
                        ),
                    ),
                )
            } else {
                let l1 = "OK: target "@ + dec_text(id)
                    + " selected \u{2014} transition to TARGET_SELECTED"@;
                let (s3, c3, ok2) = checked_step(s2, c2, SystemState::Tracking);
                if ok2 {
                    (
                        s3,
                        c3,
                        seq![l1, "OK: lock acquired \u{2014} now TRACKING target "@ + dec_text(id)],
                        None,
                    )
                } else {
                    (
                        s3,
                        c3,
                        seq![l1],
                        Some(
                            "lock acquisition failed: "@ + transition_error_text(
                                StateTransitionError::Invalid { from: s2, to: SystemState::Tracking },
                            ),
                        ),
                    )
                }
            }
        },
        ReplCommand::Abort => (
            SystemState::Abort,
            if state == SystemState::Abort {
                count
            } else {
                count + 1
            },
            seq!["!! ABORT !! \u{2014} state set to ABORT"@],
            None,
        ),
        ReplCommand::Reset => {
            if state != SystemState::Abort {
                (
                    state,
                    count,
                    Seq::empty(),
                    Some(
                        "reset only valid from ABORT state (current: "@ + state_name(state)
                            + ")"@,
                    ),
                )
            } else {
                let (s2, c2, _ok) = checked_step(state, count, SystemState::Idle);
                (s2, c2, seq!["OK: reset to IDLE"@], None)
            }
        },
        ReplCommand::FeedWatchdog(id) => (
            state,
            count,
            seq!["OK: fed "@ + watchdog_variant_name(id)],
            None,
        ),
        ReplCommand::SimulateHeartbeatLoss => (
            state,
            count,
            seq!["OK: simulated heartbeat loss \u{2014} watchdog should trigger soon"@],
            None,
        ),
        ReplCommand::Quit => (state, count, seq!["Bye."@], None),
        _ => (state, count, Seq::empty(), None),
    }
}

/// Pushes a line and keeps the view of the lines in step.
fn push_line(lines: &mut Vec<String>, l: String)
    ensures
        lines_view(final(lines)@) == lines_view(old(lines)@).push(l@),
{
    lines.push(l);
    proof {
        assert(lines_view(final(lines)@) =~= lines_view(old(lines)@).push(l@));
    }
}

/// The message of a refused transition, after a prefix.
fn refusal(prefix: &str, e: StateTransitionError) -> (m: String)
    ensures
        m@ == prefix@ + transition_error_text(e),
{
    let mut m = prefix.to_owned();
    let t = e.message();
    m.append(t.as_str());
    m
}

/// Carries out a console command on the state machine and the watchdogs
/// (the flight-controller side of `arm`, `disarm`, `set-mode` and `abort`
/// is the caller's), and returns what it prints: see `repl_effect`.
/// `feed-watchdog` feeds the named watchdog; no other command touches the
/// watchdogs.
pub fn apply_command(sm: &mut StateMachine, watchdogs: &mut WatchdogRegistry, cmd: ReplCommand) -> (o:
    ReplOutcome)
    requires
        old(sm).spec_count() + 2 <= u64::MAX,
        cmd matches ReplCommand::FeedWatchdog(id) ==> (old(watchdogs).entry(id) matches Some(e)
            ==> e.feed_count < u64::MAX),
    ensures
        (final(sm).spec_state(), final(sm).spec_count() as int, lines_view(o.lines@), error_view(
            o.error,
        )) == repl_effect(old(sm).spec_state(), old(sm).spec_count() as int, cmd),
        cmd matches ReplCommand::FeedWatchdog(id) ==> {
            &&& final(watchdogs).entry(id) matches Some(e) ==> (old(watchdogs).entry(id) matches Some(
                p,
            ) && e == fed_entry(p, e.last_fed_ms))
            &&& old(watchdogs).entry(id) is None ==> final(watchdogs).entry(id) is None
            &&& forall|other: WatchdogId|
                other != id ==> final(watchdogs).entry(other) == old(watchdogs).entry(other)
        },
        !(cmd is FeedWatchdog) ==> *final(watchdogs) == *old(watchdogs),
{
    let mut lines: Vec<String> = Vec::new();
    proof {
        assert(lines_view(lines@) =~= Seq::<Seq<char>>::empty());
    }
    let ghost s0 = sm.spec_state();
    let ghost c0 = sm.spec_count() as int;
    match cmd {
        ReplCommand::Arm => {
            let _ = sm.try_transition(SystemState::Armed);
            push_line(&mut lines, "OK: armed".to_owned());
            ReplOutcome { lines, error: None }
        },
        ReplCommand::Disarm => {
            let _ = sm.try_transition(SystemState::Idle);
            push_line(&mut lines, "OK: disarmed".to_owned());
            ReplOutcome { lines, error: None }
        },
        ReplCommand::SetMode(m) => {
            let mut l = "OK: mode set to ".to_owned();
            l.append(m.as_str());
            push_line(&mut lines, l);
            ReplOutcome { lines, error: None }
        },
        ReplCommand::Scan => {
            match sm.try_transition(SystemState::Scanning) {
                Ok(()) => {
                    push_line(&mut lines, "OK: scanning for targets".to_owned());
                    ReplOutcome { lines, error: None }
                },
                Err(e) => ReplOutcome {
                    lines,
                    error: Some(refusal("state transition failed: ", e)),
                },
            }
        },
        ReplCommand::SelectTarget(id) => {
            match sm.try_transition(SystemState::TargetSelected) {
                Err(e) => {
                    return ReplOutcome {
                        lines,
                        error: Some(refusal("state transition failed: ", e)),
                    };
                },
                Ok(()) => {},
            }
            let mut l1 = "OK: target ".to_owned();
            let d = decimal_string(id);
            l1.append(d.as_str());
            l1.append(" selected \u{2014} transition to TARGET_SELECTED");
            push_line(&mut lines, l1);
            match sm.try_transition(SystemState::Tracking) {
                Err(e) => ReplOutcome { lines, error: Some(refusal("lock acquisition failed: ", e)) },
                Ok(()) => {
                    let mut l2 = "OK: lock acquired \u{2014} now TRACKING target ".to_owned();
                    l2.append(d.as_str());
                    push_line(&mut lines, l2);
                    ReplOutcome { lines, error: None }
                },
            }
        },
        ReplCommand::Abort => {
            sm.force_transition(SystemState::Abort);
            push_line(&mut lines, "!! ABORT !! \u{2014} state set to ABORT".to_owned());
            ReplOutcome { lines, error: None }
        },
        ReplCommand::Reset => {
            let current = sm.state();
            if current != SystemState::Abort {
                let mut m = "reset only valid from ABORT state (current: ".to_owned();
                m.append(current.as_str());
                m.append(")");
                return ReplOutcome { lines, error: Some(m) };
            }
            let _ = sm.try_transition(SystemState::Idle);
            push_line(&mut lines, "OK: reset to IDLE".to_owned());
            ReplOutcome { lines, error: None }
        },
        ReplCommand::FeedWatchdog(id) => {
            watchdogs.feed(id);
            let mut l = "OK: fed ".to_owned();
            l.append(watchdog_variant_str(id));
            push_line(&mut lines, l);
            ReplOutcome { lines, error: None }
        },
        ReplCommand::SimulateHeartbeatLoss => {
            push_line(
                &mut lines,
                "OK: simulated heartbeat loss \u{2014} watchdog should trigger soon".to_owned(),
            );
            ReplOutcome { lines, error: None }
        },
        ReplCommand::Quit => {
            push_line(&mut lines, "Bye.".to_owned());
            ReplOutcome { lines, error: None }
        },
        _ => ReplOutcome { lines, error: None },
    }
}

/// Tells whether an already trimmed line ends the session: it reads
/// "quit" or "exit" (the shorter "q" says goodbye but does not end it).
pub fn is_session_end(trimmed_line: &str) -> (b: bool)
    ensures
        b == (trimmed_line@ == "quit"@ || trimmed_line@ == "exit"@),
{
    str_eq(trimmed_line, "quit") || str_eq(trimmed_line, "exit")
}

/// `reset` succeeds exactly from ABORT, and then leads to IDLE; from any
/// other state it is refused and nothing changes.
pub proof fn reset_only_from_abort(state: SystemState, count: int)
    ensures
        ({
            let (s2, c2, _lines, err) = repl_effect(state, count, ReplCommand::Reset);
            &&& (err is None <==> state == SystemState::Abort)
            &&& state == SystemState::Abort ==> s2 == SystemState::Idle && c2 == count + 1
            &&& state != SystemState::Abort ==> s2 == state && c2 == count
        }),
{
    assert(transition_allowed(SystemState::Abort, SystemState::Idle));
}

/// `abort` is never refused: from every state it leads to ABORT.
pub proof fn abort_always_taken(state: SystemState, count: int)
    ensures
        ({
            let (s2, _c2, _lines, err) = repl_effect(state, count, ReplCommand::Abort);
            s2 == SystemState::Abort && err is None
        }),
{
}

/// From SCANNING, `select-target` passes through TARGET_SELECTED to
/// TRACKING: two counted transitions and no error.
pub proof fn select_from_scanning_tracks(count: int, id: u64)
    ensures
        ({
            let (s2, c2, lines, err) = repl_effect(
                SystemState::Scanning,
                count,
                ReplCommand::SelectTarget(id),
            );
            s2 == SystemState::Tracking && c2 == count + 2 && err is None && lines.len() == 2
        }),
{
}

/// Every state a console command leaves behind is the state it found, a
/// state the transition table allows from it, or ABORT (the override);
/// `select-target` may take two allowed steps.
pub proof fn console_respects_transition_table(state: SystemState, count: int, cmd: ReplCommand)
    ensures
        ({
            let s2 = repl_effect(state, count, cmd).0;
            ||| s2 == state
            ||| transition_allowed(state, s2)
            ||| (cmd is SelectTarget && transition_allowed(state, SystemState::TargetSelected)
                && transition_allowed(SystemState::TargetSelected, s2))
        }),
{
}

/// `disarm` asks the state machine for IDLE and always reports
/// "OK: disarmed": from SCANNING, RTH and ABORT it goes to IDLE with one
/// more transition, IDLE stays IDLE, and every other state (where the table
/// refuses IDLE) stays as it was.
pub proof fn disarm_returns_to_idle(state: SystemState, count: int)
    ensures
        ({
            let (s2, c2, lines, err) = repl_effect(state, count, ReplCommand::Disarm);
            &&& err is None
            &&& lines == seq!["OK: disarmed"@]
            &&& (s2 == SystemState::Idle <==> (state == SystemState::Idle || state
                == SystemState::Scanning || state == SystemState::Rth || state
                == SystemState::Abort))
            &&& (state == SystemState::Scanning || state == SystemState::Rth || state
                == SystemState::Abort) ==> c2 == count + 1
            &&& s2 != SystemState::Idle ==> (s2 == state && c2 == count)
            &&& state == SystemState::Idle ==> c2 == count
        }),
{
}

} // verus!
