//! The bus console's logic: what an operator line asks for and what the
//! console answers before or after sending a command on the bus. Reading
//! lines, the bus itself and the cached telemetry stay with the program.

use vstd::prelude::*;
use vstd::string::StringExecFns;
use crate::text::{split_words, str_eq, words};

verus! {

/// What a bus-console line asks for.
#[derive(Debug, Clone, Copy, PartialEq, Eq, Structural)]
pub enum BusConsoleKind {
    /// An empty line: nothing happens.
    Nothing,
    Help,
    Status,
    Tracks,
    Telemetry,
    Statuses,
    /// Send "arm" to the controller.
    Arm,
    /// Send "disarm" to the controller.
    Disarm,
    /// Send "set_mode" with the mode given as the first argument.
    Mode,
    /// "mode" without a mode: only the usage line is printed.
    ModeUsage,
    /// Send "set_roi" with the position given by the arguments.
    SetRoi,
    /// "set-roi" with fewer than two arguments: only the usage line.
    SetRoiUsage,
    /// Send "set_mode" to RTL.
    Abort,
    Quit,
    /// Anything else: the console says it does not know the command.
    Unknown,
}

/// A line read by the bus console: what it asks for, the words after the
/// command word, and the line printed at once (help, usage or the unknown
/// command), if any.
#[derive(Debug, Clone)]
pub struct BusConsoleRequest {
    pub kind: BusConsoleKind,
    pub args: Vec<String>,
    pub reply: Option<String>,
}

/// The help line of the bus console.
pub open spec fn bus_help_text() -> Seq<char> {
    "status tracks telemetry statuses arm disarm mode <guided|rtl|loiter|auto|manual> set-roi <lat> <lon> <alt> abort quit"@
}

/// What the words of a line ask for, and the line printed at once.
pub open spec fn bus_console_of(w: Seq<Seq<char>>) -> (BusConsoleKind, Option<Seq<char>>) {
    if w.len() == 0 {
        (BusConsoleKind::Nothing, None)
    } else {
        let c = w[0];
        let rest = w.len() - 1;
        if c == "help"@ || c == "h"@ || c == "?"@ {
            (BusConsoleKind::Help, Some(bus_help_text()))
        } else if c == "status"@ || c == "st"@ {
            (BusConsoleKind::Status, None)
        } else if c == "tracks"@ {
            (BusConsoleKind::Tracks, None)
        } else if c == "telemetry"@ || c == "tele"@ {
            (BusConsoleKind::Telemetry, None)
        } else if c == "statuses"@ {
            (BusConsoleKind::Statuses, None)
        } else if c == "arm"@ {
            (BusConsoleKind::Arm, None)
        } else if c == "disarm"@ {
            (BusConsoleKind::Disarm, None)
        } else if c == "mode"@ || c == "set-mode"@ {
            if rest == 0 {
                (
                    BusConsoleKind::ModeUsage,
                    Some("usage: mode <guided|rtl|loiter|auto|manual|stabilize>"@),
                )
            } else {
                (BusConsoleKind::Mode, None)
            }
        } else if c == "set-roi"@ {
            if rest < 2 {
                (BusConsoleKind::SetRoiUsage, Some("usage: set-roi <lat> <lon> [alt]"@))
            } else {
                (BusConsoleKind::SetRoi, None)
            }
        } else if c == "abort"@ {
            (BusConsoleKind::Abort, None)
        } else if c == "quit"@ || c == "exit"@ || c == "q"@ {
            (BusConsoleKind::Quit, None)
        } else {
            (
                BusConsoleKind::Unknown,
                Some(
                    "\u{43d}\u{435}\u{438}\u{437}\u{432}\u{435}\u{441}\u{442}\u{43d}\u{430}\u{44f} \u{43a}\u{43e}\u{43c}\u{430}\u{43d}\u{434}\u{430}: "@
                        + c
                        + " (help \u{2014} \u{441}\u{43f}\u{438}\u{441}\u{43e}\u{43a})"@,
                ),
            )
        }
    }
}

/// Reads one bus-console line (see `bus_console_of`); the arguments are the
/// words after the command word.
pub fn read_bus_console_line(line: &str) -> (r: BusConsoleRequest)
    ensures
        (r.kind, match r.reply {
            Some(s) => Some(s@),
            None => None,
        }) == bus_console_of(words(line@)),
        words(line@).len() == 0 ==> r.args@.len() == 0,
        words(line@).len() > 0 ==> {
            &&& r.args@.len() + 1 == words(line@).len()
            &&& forall|k: int| 0 <= k < r.args@.len() ==> #[trigger] r.args@[k]@ == words(line@)[k + 1]
        },
{
    let mut ws = split_words(line);
    let ghost w = words(line@);
    let ghost all = ws@;
    if ws.len() == 0 {
        return BusConsoleRequest { kind: BusConsoleKind::Nothing, args: ws, reply: None };
    }
    let first = ws.remove(0);
    proof {
        assert(first@ == w[0]);
        assert forall|k: int| 0 <= k < ws@.len() implies #[trigger] ws@[k]@ == w[k + 1] by {
            assert(ws@[k] == all[k + 1]);
        }
    }
    let c = first.as_str();
    let (kind, reply) = if str_eq(c, "help") || str_eq(c, "h") || str_eq(c, "?") {
        (
            BusConsoleKind::Help,
            Some(
                "status tracks telemetry statuses arm disarm mode <guided|rtl|loiter|auto|manual> set-roi <lat> <lon> <alt> abort quit".to_owned(),
            ),
        )
    } else if str_eq(c, "status") || str_eq(c, "st") {
        (BusConsoleKind::Status, None)
    } else if str_eq(c, "tracks") {
        (BusConsoleKind::Tracks, None)
    } else if str_eq(c, "telemetry") || str_eq(c, "tele") {
        (BusConsoleKind::Telemetry, None)
    } else if str_eq(c, "statuses") {
        (BusConsoleKind::Statuses, None)
    } else if str_eq(c, "arm") {
        (BusConsoleKind::Arm, None)
    } else if str_eq(c, "disarm") {
        (BusConsoleKind::Disarm, None)
    } else if str_eq(c, "mode") || str_eq(c, "set-mode") {
        if ws.len() == 0 {
            (
                BusConsoleKind::ModeUsage,
                Some("usage: mode <guided|rtl|loiter|auto|manual|stabilize>".to_owned()),
            )
        } else {
            (BusConsoleKind::Mode, None)
        }
    } else if str_eq(c, "set-roi") {
        if ws.len() < 2 {
            (BusConsoleKind::SetRoiUsage, Some("usage: set-roi <lat> <lon> [alt]".to_owned()))
        } else {
            (BusConsoleKind::SetRoi, None)
        }
    } else if str_eq(c, "abort") {
        (BusConsoleKind::Abort, None)
    } else if str_eq(c, "quit") || str_eq(c, "exit") || str_eq(c, "q") {
        (BusConsoleKind::Quit, None)
    } else {
        let mut m =
            "\u{43d}\u{435}\u{438}\u{437}\u{432}\u{435}\u{441}\u{442}\u{43d}\u{430}\u{44f} \u{43a}\u{43e}\u{43c}\u{430}\u{43d}\u{434}\u{430}: ".to_owned();
        m.append(c);
        m.append(" (help \u{2014} \u{441}\u{43f}\u{438}\u{441}\u{43e}\u{43a})");
        (BusConsoleKind::Unknown, Some(m))
    };
    BusConsoleRequest { kind, args: ws, reply }
}

/// The bus command a request sends, if it sends one: "arm", "disarm",
/// "set_mode" (also for an abort, to RTL) or "set_roi".
pub open spec fn bus_command_name(kind: BusConsoleKind) -> Option<Seq<char>> {
    match kind {
        BusConsoleKind::Arm => Some("arm"@),
        BusConsoleKind::Disarm => Some("disarm"@),
        BusConsoleKind::Mode => Some("set_mode"@),
        BusConsoleKind::Abort => Some("set_mode"@),
        BusConsoleKind::SetRoi => Some("set_roi"@),
        _ => None,
    }
}

/// The bus command a request sends (see `bus_command_name`).
pub fn bus_command(kind: BusConsoleKind) -> (r: Option<&'static str>)
    ensures
        match r {
            Some(s) => bus_command_name(kind) == Some(s@),
            None => bus_command_name(kind) is None,
        },
{
    match kind {
        BusConsoleKind::Arm => Some("arm"),
        BusConsoleKind::Disarm => Some("disarm"),
        BusConsoleKind::Mode => Some("set_mode"),
        BusConsoleKind::Abort => Some("set_mode"),
        BusConsoleKind::SetRoi => Some("set_roi"),
        _ => None,
    }
}

/// The characters of each argument.
pub open spec fn args_view(args: Seq<String>) -> Seq<Seq<char>> {
    args.map_values(|a: String| a@)
}

/// The characters of each key and value of a command's arguments.
pub open spec fn pairs_view(p: Seq<(String, String)>) -> Seq<(Seq<char>, Seq<char>)> {
    p.map_values(|kv: (String, String)| (kv.0@, kv.1@))
}

/// The command a request sends to the flight controller, with its string
/// arguments as key/value pairs: arm and disarm take none; a mode request
/// sends "set_mode" with its first argument as "mode" (with no argument
/// nothing is sent); an abort sends "set_mode" with mode "rtl". The
/// coordinates of "set_roi" are floating-point numbers that the program
/// parses and sends itself, so a set-roi request has no entry here; nor do
/// the usage lines, the read-only requests, quitting or an unknown word.
pub open spec fn bus_request_of(kind: BusConsoleKind, args: Seq<Seq<char>>) -> Option<
    (Seq<char>, Seq<(Seq<char>, Seq<char>)>),
> {
    match kind {
        BusConsoleKind::Arm => Some(("arm"@, Seq::empty())),
        BusConsoleKind::Disarm => Some(("disarm"@, Seq::empty())),
        BusConsoleKind::Mode => if args.len() > 0 {
            Some(("set_mode"@, seq![("mode"@, args[0])]))
        } else {
            None
        },
        BusConsoleKind::Abort => Some(("set_mode"@, seq![("mode"@, "rtl"@)])),
        _ => None,
    }
}

/// The command a request sends, with its arguments (see `bus_request_of`).
pub fn bus_request(kind: BusConsoleKind, args: &Vec<String>) -> (r: Option<
    (&'static str, Vec<(String, String)>),
>)
    ensures
        match r {
            Some((c, p)) => bus_request_of(kind, args_view(args@)) == Some((c@, pairs_view(p@))),
            None => bus_request_of(kind, args_view(args@)) is None,
        },
{
    match kind {
        BusConsoleKind::Arm => Some(("arm", Vec::new())),
        BusConsoleKind::Disarm => Some(("disarm", Vec::new())),
        BusConsoleKind::Mode => {
            if args.len() == 0 {
                None
            } else {
                let mut p: Vec<(String, String)> = Vec::new();
                p.push(("mode".to_owned(), args[0].clone()));
                proof {
                    assert(pairs_view(p@) =~= seq![("mode"@, args_view(args@)[0])]);
                }
                Some(("set_mode", p))
            }
        },
        BusConsoleKind::Abort => {
            let mut p: Vec<(String, String)> = Vec::new();
            p.push(("mode".to_owned(), "rtl".to_owned()));
            proof {
                assert(pairs_view(p@) =~= seq![("mode"@, "rtl"@)]);
            }
            Some(("set_mode", p))
        },
        _ => None,
    }
}

/// Whether a request ends the session: quitting does; every other line is
/// answered and the next one read.
pub fn ends_bus_session(kind: BusConsoleKind) -> (b: bool)
    ensures
        b == (kind == BusConsoleKind::Quit),
{
    match kind {
        BusConsoleKind::Quit => true,
        _ => false,
    }
}

/// Whether a sent request counts towards the commands sent (an abort does
/// not).
pub open spec fn counts_as_sent(kind: BusConsoleKind) -> bool {
    kind == BusConsoleKind::Arm || kind == BusConsoleKind::Disarm || kind == BusConsoleKind::Mode
        || kind == BusConsoleKind::SetRoi
}

/// Whether a sent request counts towards the commands sent.
pub fn is_counted(kind: BusConsoleKind) -> (b: bool)
    ensures
        b == counts_as_sent(kind),
{
    match kind {
        BusConsoleKind::Arm | BusConsoleKind::Disarm | BusConsoleKind::Mode
        | BusConsoleKind::SetRoi => true,
        _ => false,
    }
}

/// The confirmation printed after arming, disarming, a mode change (with
/// the mode as typed) or an abort was sent.
pub fn sent_confirmation(kind: BusConsoleKind, mode: &str) -> (r: Option<String>)
    ensures
        kind == BusConsoleKind::Arm ==> (r matches Some(s) && s@
            == "-> arm \u{43e}\u{442}\u{43f}\u{440}\u{430}\u{432}\u{43b}\u{435}\u{43d}\u{430}"@),
        kind == BusConsoleKind::Disarm ==> (r matches Some(s) && s@
            == "-> disarm \u{43e}\u{442}\u{43f}\u{440}\u{430}\u{432}\u{43b}\u{435}\u{43d}\u{430}"@),
        kind == BusConsoleKind::Mode ==> (r matches Some(s) && s@ == "-> set_mode "@ + mode@),
        kind == BusConsoleKind::Abort ==> (r matches Some(s) && s@
            == "-> ABORT: RTL \u{43e}\u{442}\u{43f}\u{440}\u{430}\u{432}\u{43b}\u{435}\u{43d}"@),
        kind != BusConsoleKind::Arm && kind != BusConsoleKind::Disarm && kind
            != BusConsoleKind::Mode && kind != BusConsoleKind::Abort ==> r is None,
{
    match kind {
        BusConsoleKind::Arm => Some(
            "-> arm \u{43e}\u{442}\u{43f}\u{440}\u{430}\u{432}\u{43b}\u{435}\u{43d}\u{430}".to_owned(),
        ),
        BusConsoleKind::Disarm => Some(
            "-> disarm \u{43e}\u{442}\u{43f}\u{440}\u{430}\u{432}\u{43b}\u{435}\u{43d}\u{430}".to_owned(),
        ),
        BusConsoleKind::Mode => {
            let mut s = "-> set_mode ".to_owned();
            s.append(mode);
            Some(s)
        },
        BusConsoleKind::Abort => Some(
            "-> ABORT: RTL \u{43e}\u{442}\u{43f}\u{440}\u{430}\u{432}\u{43b}\u{435}\u{43d}".to_owned(),
        ),
        _ => None,
    }
}

} // verus!
