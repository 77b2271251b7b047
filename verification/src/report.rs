//! Text reports: the commander's health report and the console's watchdog
//! and oscillation-guard tables, with the column padding they use.

use vstd::prelude::*;
use vstd::string::StringExecFns;
use vstd::string::StrSliceExecFns;
use crate::anti_loop::AntiLoopSnapshot;
use crate::commander::CommanderHealth;
use crate::repl::{dec_text, lines_view};
use crate::text::decimal_string;
use crate::types::{flight_mode_name, state_name};
use crate::watchdogs::{WatchdogSnapshot, wd_name};

verus! {

/// `n` spaces.
pub open spec fn spaces(n: nat) -> Seq<char> {
    Seq::new(n, |i: int| ' ')
}

/// `s` followed by spaces up to width `w` (`{:<w}`).
pub open spec fn pad_end(s: Seq<char>, w: nat) -> Seq<char> {
    if s.len() >= w {
        s
    } else {
        s + spaces((w - s.len()) as nat)
    }
}

/// `s` preceded by spaces up to width `w` (`{:>w}`).
pub open spec fn pad_start(s: Seq<char>, w: nat) -> Seq<char> {
    if s.len() >= w {
        s
    } else {
        spaces((w - s.len()) as nat) + s
    }
}

/// How a boolean is printed.
pub open spec fn bool_text(b: bool) -> Seq<char> {
    if b {
        "true"@
    } else {
        "false"@
    }
}

fn push_spaces(s: &mut String, n: usize)
    ensures
        final(s)@ == old(s)@ + spaces(n as nat),
{
    let mut i: usize = 0;
    while i < n
        invariant
            i <= n,
            s@ == old(s)@ + spaces(i as nat),
        decreases n - i,
    {
        s.append(" ");
        proof {
            reveal_strlit(" ");
            assert(spaces(i as nat) + " "@ =~= spaces((i + 1) as nat));
            assert(s@ =~= old(s)@ + spaces((i + 1) as nat));
        }
        i = i + 1;
    }
}

/// Appends `t` left-aligned in a column of width `w`.
fn push_padded_end(s: &mut String, t: &str, w: usize)
    ensures
        final(s)@ == old(s)@ + pad_end(t@, w as nat),
{
    let n = t.unicode_len();
    s.append(t);
    if n < w {
        push_spaces(s, w - n);
        proof {
            assert(old(s)@ + t@ + spaces((w - n) as nat) =~= old(s)@ + pad_end(t@, w as nat));
        }
    }
}

/// Appends `t` right-aligned in a column of width `w`.
fn push_padded_start(s: &mut String, t: &str, w: usize)
    ensures
        final(s)@ == old(s)@ + pad_start(t@, w as nat),
{
    let n = t.unicode_len();
    if n < w {
        push_spaces(s, w - n);
    }
    s.append(t);
    proof {
        if n < w {
            assert(old(s)@ + spaces((w - n) as nat) + t@ =~= old(s)@ + pad_start(t@, w as nat));
        }
    }
}

fn bool_str(b: bool) -> (s: &'static str)
    ensures
        s@ == bool_text(b),
{
    if b {
        "true"
    } else {
        "false"
    }
}

/// The report line of one watchdog in the health report.
pub open spec fn health_watchdog_line(w: WatchdogSnapshot) -> Seq<char> {
    "  "@ + pad_end(wd_name(w.id), 15) + " elapsed="@ + pad_start(dec_text(w.elapsed_ms), 5)
        + "ms / limit="@ + pad_start(dec_text(w.timeout_ms), 5) + "ms expired="@ + bool_text(
        w.expired,
    ) + "\n"@
}

/// The watchdog lines of the health report, in order.
pub open spec fn health_watchdog_lines(ws: Seq<WatchdogSnapshot>) -> Seq<char>
    decreases ws.len(),
{
    if ws.len() == 0 {
        Seq::empty()
    } else {
        health_watchdog_lines(ws.drop_last()) + health_watchdog_line(ws.last())
    }
}

/// The status lines at the top of the health report.
pub open spec fn health_status_text(h: CommanderHealth) -> Seq<char> {
    "=== Commander Health ===\n"@ + "State:          "@ + state_name(h.state) + " (transitions: "@
        + dec_text(h.transitions) + ")\n"@ + "Connected:      "@ + bool_text(h.connected) + "\n"@
        + "Armed:          "@ + bool_text(h.armed) + "\n"@ + "FC mode:        "@
        + flight_mode_name(h.fc_mode) + "\n"@ + "FC heartbeat:   "@ + (if h.fc_heartbeat_stale {
        "STALE"@
    } else {
        "OK"@
    }) + "\n"@
}

/// The command lines of the health report, up to the watchdog title.
pub open spec fn health_command_text(h: CommanderHealth) -> Seq<char> {
    (match h.active_target_id {
        Some(id) => "Active target:  "@ + dec_text(id) + "\n"@,
        None => "Active target:  none\n"@,
    }) + "Rate limiter:   sent="@ + dec_text(h.rate_limiter_sent) + " dropped="@ + dec_text(
        h.rate_limiter_dropped,
    ) + "\n"@ + (if h.last_command_age_ms == u64::MAX {
        "Last command:   never\n"@
    } else {
        "Last command:   "@ + dec_text(h.last_command_age_ms) + " ms ago\n"@
    }) + "Watchdogs:\n"@
}

/// The last line of the health report.
pub open spec fn health_guard_text(h: CommanderHealth) -> Seq<char> {
    "Anti-loop:      allowed="@ + dec_text(h.anti_loop.allowed_count) + " suppressed="@ + dec_text(
        h.anti_loop.suppressed_count,
    ) + " oscillations="@ + dec_text(h.anti_loop.oscillation_trigger_count) + "\n"@
}

/// The commander's health report, one line per item, each ending in a
/// newline.
pub open spec fn health_report_text(h: CommanderHealth) -> Seq<char> {
    health_status_text(h) + health_command_text(h) + health_watchdog_lines(h.watchdogs@)
        + health_guard_text(h)
}

fn push_decimal_text(s: &mut String, n: u64)
    ensures
        final(s)@ == old(s)@ + dec_text(n),
{
    let d = decimal_string(n);
    s.append(d.as_str());
}

fn health_status_string(h: &CommanderHealth) -> (s: String)
    ensures
        s@ == health_status_text(*h),
{
    let mut s = "=== Commander Health ===\n".to_owned();
    s.append("State:          ");
    s.append(h.state.as_str());
    s.append(" (transitions: ");
    push_decimal_text(&mut s, h.transitions);
    s.append(")\n");
    s.append("Connected:      ");
    s.append(bool_str(h.connected));
    s.append("\n");
    s.append("Armed:          ");
    s.append(bool_str(h.armed));
    s.append("\n");
    s.append("FC mode:        ");
    s.append(h.fc_mode.as_str());
    s.append("\n");
    s.append("FC heartbeat:   ");
    s.append(if h.fc_heartbeat_stale { "STALE" } else { "OK" });
    s.append("\n");
    s
}

fn push_health_commands(s: &mut String, h: &CommanderHealth)
    ensures
        final(s)@ == old(s)@ + health_command_text(*h),
{
    let mut t = String::new();
    match h.active_target_id {
        Some(id) => {
            t.append("Active target:  ");
            push_decimal_text(&mut t, id);
            t.append("\n");
        },
        None => {
            t.append("Active target:  none\n");
        },
    }
    t.append("Rate limiter:   sent=");
    push_decimal_text(&mut t, h.rate_limiter_sent);
    t.append(" dropped=");
    push_decimal_text(&mut t, h.rate_limiter_dropped);
    t.append("\n");
    if h.last_command_age_ms == u64::MAX {
        t.append("Last command:   never\n");
    } else {
        t.append("Last command:   ");
        push_decimal_text(&mut t, h.last_command_age_ms);
        t.append(" ms ago\n");
    }
    t.append("Watchdogs:\n");
    proof {
        assert(t@ =~= health_command_text(*h));
    }
    s.append(t.as_str());
}

fn push_health_watchdog(s: &mut String, w: WatchdogSnapshot)
    ensures
        final(s)@ == old(s)@ + health_watchdog_line(w),
{
    let mut t = "  ".to_owned();
    push_padded_end(&mut t, w.id.as_str(), 15);
    t.append(" elapsed=");
    let e = decimal_string(w.elapsed_ms);
    push_padded_start(&mut t, e.as_str(), 5);
    t.append("ms / limit=");
    let l = decimal_string(w.timeout_ms);
    push_padded_start(&mut t, l.as_str(), 5);
    t.append("ms expired=");
    t.append(bool_str(w.expired));
    t.append("\n");
    s.append(t.as_str());
}

fn push_health_guard(s: &mut String, h: &CommanderHealth)
    ensures
        final(s)@ == old(s)@ + health_guard_text(*h),
{
    let mut t = "Anti-loop:      allowed=".to_owned();
    push_decimal_text(&mut t, h.anti_loop.allowed_count);
    t.append(" suppressed=");
    push_decimal_text(&mut t, h.anti_loop.suppressed_count);
    t.append(" oscillations=");
    push_decimal_text(&mut t, h.anti_loop.oscillation_trigger_count);
    t.append("\n");
    s.append(t.as_str());
}

/// Renders the commander's health report (see `health_report_text`).
pub fn health_report(h: &CommanderHealth) -> (s: String)
    ensures
        s@ == health_report_text(*h),
{
    let mut s = health_status_string(h);
    push_health_commands(&mut s, h);
    let ghost head = s@;
    let mut i: usize = 0;
    proof {
        assert(h.watchdogs@.take(0) =~= Seq::<WatchdogSnapshot>::empty());
        assert(head + health_watchdog_lines(h.watchdogs@.take(0)) =~= head);
    }
    while i < h.watchdogs.len()
        invariant
            i <= h.watchdogs@.len(),
            s@ == head + health_watchdog_lines(h.watchdogs@.take(i as int)),
        decreases h.watchdogs@.len() - i,
    {
        let w = h.watchdogs[i];
        push_health_watchdog(&mut s, w);
        proof {
            assert(h.watchdogs@.take(i + 1).drop_last() =~= h.watchdogs@.take(i as int));
            assert(h.watchdogs@.take(i + 1).last() == w);
            assert(s@ =~= head + health_watchdog_lines(h.watchdogs@.take(i + 1)));
        }
        i = i + 1;
    }
    proof {
        assert(h.watchdogs@.take(i as int) =~= h.watchdogs@);
    }
    push_health_guard(&mut s, h);
    s
}

/// The console's row for one watchdog.
pub open spec fn watchdog_row(w: WatchdogSnapshot) -> Seq<char> {
    pad_end(wd_name(w.id), 15) + " "@ + pad_start(dec_text(w.elapsed_ms), 8) + "ms "@ + pad_start(
        dec_text(w.timeout_ms),
        8,
    ) + "ms "@ + pad_start(bool_text(w.expired), 10) + " "@ + pad_start(dec_text(w.feed_count), 10)
}

/// The number of expired watchdogs.
pub open spec fn expired_count(ws: Seq<WatchdogSnapshot>) -> nat
    decreases ws.len(),
{
    if ws.len() == 0 {
        0
    } else {
        expired_count(ws.drop_last()) + if ws.last().expired {
            1nat
        } else {
            0nat
        }
    }
}

/// The console's watchdog table: a title, the column header, a row per
/// watchdog, and how many of them have expired.
pub open spec fn watchdog_table_lines(ws: Seq<WatchdogSnapshot>) -> Seq<Seq<char>> {
    seq![
        "\n=== Watchdogs ==="@,
        pad_end("NAME"@, 15) + " "@ + pad_start("ELAPSED"@, 10) + " "@ + pad_start("LIMIT"@, 10)
            + " "@ + pad_start("EXPIRED"@, 10) + " "@ + pad_start("FEEDS"@, 10),
    ] + Seq::new(ws.len(), |i: int| watchdog_row(ws[i])) + seq![
        "\nExpired: "@ + dec_text(expired_count(ws) as u64) + "/"@ + dec_text(ws.len() as u64),
    ]
}

/// Renders the console's watchdog table (see `watchdog_table_lines`).
pub fn watchdog_table(ws: &Vec<WatchdogSnapshot>) -> (lines: Vec<String>)
    requires
        ws@.len() <= u64::MAX,
    ensures
        lines_view(lines@) == watchdog_table_lines(ws@),
{
    let mut lines: Vec<String> = Vec::new();
    lines.push("\n=== Watchdogs ===".to_owned());
    let mut header = String::new();
    push_padded_end(&mut header, "NAME", 15);
    header.append(" ");
    push_padded_start(&mut header, "ELAPSED", 10);
    header.append(" ");
    push_padded_start(&mut header, "LIMIT", 10);
    header.append(" ");
    push_padded_start(&mut header, "EXPIRED", 10);
    header.append(" ");
    push_padded_start(&mut header, "FEEDS", 10);
    lines.push(header);
    let ghost head = lines_view(lines@);
    let mut expired: u64 = 0;
    let mut i: usize = 0;
    proof {
        assert(ws@.take(0) =~= Seq::<WatchdogSnapshot>::empty());
    }
    while i < ws.len()
        invariant
            i <= ws@.len(),
            ws@.len() <= u64::MAX,
            lines_view(lines@) == head + Seq::new(i as nat, |k: int| watchdog_row(ws@[k])),
            expired == expired_count(ws@.take(i as int)),
            expired <= i,
        decreases ws@.len() - i,
    {
        let w = ws[i];
        let mut row = String::new();
        push_padded_end(&mut row, w.id.as_str(), 15);
        row.append(" ");
        let e = decimal_string(w.elapsed_ms);
        push_padded_start(&mut row, e.as_str(), 8);
        row.append("ms ");
        let t = decimal_string(w.timeout_ms);
        push_padded_start(&mut row, t.as_str(), 8);
        row.append("ms ");
        push_padded_start(&mut row, bool_str(w.expired), 10);
        row.append(" ");
        let f = decimal_string(w.feed_count);
        push_padded_start(&mut row, f.as_str(), 10);
        let ghost prev = lines_view(lines@);
        lines.push(row);
        proof {
            assert(lines_view(lines@) =~= prev.push(row@));
            assert(lines_view(lines@) =~= head + Seq::new((i + 1) as nat, |k: int| watchdog_row(ws@[k])));
            assert(ws@.take(i + 1).drop_last() =~= ws@.take(i as int));
            assert(ws@.take(i + 1).last() == w);
        }
        if w.expired {
            expired = expired + 1;
        }
        i = i + 1;
    }
    proof {
        assert(ws@.take(i as int) =~= ws@);
    }
    let mut last = "\nExpired: ".to_owned();
    push_decimal_text(&mut last, expired);
    last.append("/");
    push_decimal_text(&mut last, ws.len() as u64);
    let ghost prev = lines_view(lines@);
    lines.push(last);
    proof {
        assert(lines_view(lines@) =~= prev.push(last@));
        assert(lines_view(lines@) =~= watchdog_table_lines(ws@));
    }
    lines
}

/// The console's report of the oscillation guard.
pub open spec fn anti_loop_report_lines(a: AntiLoopSnapshot) -> Seq<Seq<char>> {
    seq![
        "\n=== Anti-Loop Guard ==="@,
        "Frozen:                 "@ + bool_text(a.frozen),
        "Commands allowed:       "@ + dec_text(a.allowed_count),
        "Commands suppressed:    "@ + dec_text(a.suppressed_count),
        "Oscillation triggers:   "@ + dec_text(a.oscillation_trigger_count),
        "History length:         "@ + dec_text(a.history_len as u64),
    ]
}

/// Renders the console's report of the oscillation guard.
pub fn anti_loop_report(a: &AntiLoopSnapshot) -> (lines: Vec<String>)
    ensures
        lines_view(lines@) == anti_loop_report_lines(*a),
{
    let mut l1 = "Frozen:                 ".to_owned();
    l1.append(bool_str(a.frozen));
    let mut l2 = "Commands allowed:       ".to_owned();
    push_decimal_text(&mut l2, a.allowed_count);
    let mut l3 = "Commands suppressed:    ".to_owned();
    push_decimal_text(&mut l3, a.suppressed_count);
    let mut l4 = "Oscillation triggers:   ".to_owned();
    push_decimal_text(&mut l4, a.oscillation_trigger_count);
    let mut l5 = "History length:         ".to_owned();
    push_decimal_text(&mut l5, a.history_len as u64);
    let lines = vec!["\n=== Anti-Loop Guard ===".to_owned(), l1, l2, l3, l4, l5];
    proof {
        assert(lines_view(lines@) =~= anti_loop_report_lines(*a));
    }
    lines
}

} // verus!
