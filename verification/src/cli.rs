//! Operator-facing parsing: run modes of the command line, operator
//! commands, and the names of flight modes and system states.

use vstd::prelude::*;
use vstd::string::StringExecFns;
use crate::text::str_eq;
use crate::types::{FlightMode, SystemState};

verus! {

/// Command-line options.
#[derive(Debug, Clone)]
pub struct CliArgs {
    /// Path to the configuration TOML file (defaults are used without).
    pub config: Option<String>,
    /// Use an in-memory flight controller.
    pub mock_fc: bool,
    /// Use mock everything (synthetic video, mock inference, mock FC).
    pub mock_all: bool,
    /// Print health status and exit.
    pub health_check: bool,
    /// Verbosity (number of -v).
    pub verbose: u8,
}

/// How the program runs.
#[derive(Debug, Clone, Copy, PartialEq, Eq, Structural)]
pub enum RunMode {
    Full,
    MockFc,
    MockAll,
    HealthCheck,
}

/// The run mode the flags select: a health check wins over mocking
/// everything, which wins over mocking the controller.
pub open spec fn run_mode_of(health_check: bool, mock_all: bool, mock_fc: bool) -> RunMode {
    if health_check {
        RunMode::HealthCheck
    } else if mock_all {
        RunMode::MockAll
    } else if mock_fc {
        RunMode::MockFc
    } else {
        RunMode::Full
    }
}

impl CliArgs {
    pub fn mode(&self) -> (m: RunMode)
        ensures
            m == run_mode_of(self.health_check, self.mock_all, self.mock_fc),
    {
        if self.health_check {
            RunMode::HealthCheck
        } else if self.mock_all {
            RunMode::MockAll
        } else if self.mock_fc {
            RunMode::MockFc
        } else {
            RunMode::Full
        }
    }
}

/// Commands an operator can issue to the running system.
#[derive(Debug, Clone, Copy, PartialEq, Eq, Structural)]
pub enum OperatorCommand {
    SelectTarget { target_id: u64 },
    SetMode { mode: FlightMode },
    Abort,
    Reset,
    Disarm,
}

/// An operator command that could not be understood.
#[derive(Debug, Clone)]
pub struct CommandError {
    pub message: String,
}

/// The Unicode lowercase of a string (`str::to_lowercase`).
pub uninterp spec fn lowercase(s: Seq<char>) -> Seq<char>;

/// The Unicode uppercase of a string (`str::to_uppercase`).
pub uninterp spec fn uppercase(s: Seq<char>) -> Seq<char>;

/// Whether every character is ASCII.
pub open spec fn ascii_text(s: Seq<char>) -> bool {
    forall|i: int| 0 <= i < s.len() ==> (#[trigger] s[i] as u32) < 128
}

/// The ASCII lowercase of a character: A-Z become a-z, all else stays.
pub open spec fn ascii_lower_char(c: char) -> char {
    if 65 <= (c as u32) <= 90 {
        ((c as u32) + 32) as char
    } else {
        c
    }
}

/// The ASCII uppercase of a character: a-z become A-Z, all else stays.
pub open spec fn ascii_upper_char(c: char) -> char {
    if 97 <= (c as u32) <= 122 {
        ((c as u32) - 32) as char
    } else {
        c
    }
}

/// The lowercase of a text: on ASCII text A-Z become a-z, and the Unicode
/// lowercase otherwise.
pub open spec fn lower_text(s: Seq<char>) -> Seq<char> {
    if ascii_text(s) {
        s.map_values(|c: char| ascii_lower_char(c))
    } else {
        lowercase(s)
    }
}

/// The uppercase of a text: on ASCII text a-z become A-Z, and the Unicode
/// uppercase otherwise.
pub open spec fn upper_text(s: Seq<char>) -> Seq<char> {
    if ascii_text(s) {
        s.map_values(|c: char| ascii_upper_char(c))
    } else {
        uppercase(s)
    }
}

/// Lowercases a string (`str::to_lowercase`); the result is named by
/// `lowercase` of the input's characters. On ASCII text the Unicode
/// lowercase mapping turns A-Z into a-z and leaves every other character
/// as it is, character for character.
#[verifier::external_body]
fn to_lower(s: &str) -> (r: String)
    ensures
        r@ == lowercase(s@),
        ascii_text(s@) ==> r@ == s@.map_values(|c: char| ascii_lower_char(c)),
{
    s.to_lowercase()
}

/// Uppercases a string (`str::to_uppercase`); the result is named by
/// `uppercase` of the input's characters. On ASCII text the Unicode
/// uppercase mapping turns a-z into A-Z and leaves every other character
/// as it is, character for character.
#[verifier::external_body]
fn to_upper(s: &str) -> (r: String)
    ensures
        r@ == uppercase(s@),
        ascii_text(s@) ==> r@ == s@.map_values(|c: char| ascii_upper_char(c)),
{
    s.to_uppercase()
}

/// The flight mode a lowercase keyword names.
pub open spec fn mode_keyword(k: Seq<char>) -> Option<FlightMode> {
    if k == "guided"@ {
        Some(FlightMode::Guided)
    } else if k == "rtl"@ {
        Some(FlightMode::Rtl)
    } else if k == "loiter"@ {
        Some(FlightMode::Loiter)
    } else if k == "manual"@ {
        Some(FlightMode::Manual)
    } else if k == "auto"@ {
        Some(FlightMode::Auto)
    } else if k == "stabilize"@ || k == "stab"@ {
        Some(FlightMode::Stabilize)
    } else {
        None
    }
}

/// Reads an already lowercased flight-mode keyword.
pub fn flight_mode_from_keyword(k: &str) -> (m: Option<FlightMode>)
    ensures
        m == mode_keyword(k@),
{
    if str_eq(k, "guided") {
        Some(FlightMode::Guided)
    } else if str_eq(k, "rtl") {
        Some(FlightMode::Rtl)
    } else if str_eq(k, "loiter") {
        Some(FlightMode::Loiter)
    } else if str_eq(k, "manual") {
        Some(FlightMode::Manual)
    } else if str_eq(k, "auto") {
        Some(FlightMode::Auto)
    } else if str_eq(k, "stabilize") || str_eq(k, "stab") {
        Some(FlightMode::Stabilize)
    } else {
        None
    }
}

/// Reads a flight mode written in any case; an unknown name is refused
/// with "unknown flight mode: " and the lowercased name.
pub fn parse_flight_mode(s: &str) -> (r: Result<FlightMode, CommandError>)
    ensures
        match mode_keyword(lower_text(s@)) {
            Some(m) => r matches Ok(x) && x == m,
            None => r matches Err(e) && e.message@ == "unknown flight mode: "@ + lower_text(s@),
        },
{
    let lower = to_lower(s);
    match flight_mode_from_keyword(lower.as_str()) {
        Some(m) => Ok(m),
        None => {
            let mut message = "unknown flight mode: ".to_owned();
            message.append(lower.as_str());
            Err(CommandError { message })
        },
    }
}

/// The state an uppercase state name names (IDLE for anything else).
pub open spec fn state_keyword(k: Seq<char>) -> SystemState {
    if k == "IDLE"@ {
        SystemState::Idle
    } else if k == "ARMED"@ {
        SystemState::Armed
    } else if k == "SCANNING"@ {
        SystemState::Scanning
    } else if k == "TARGET_SELECTED"@ {
        SystemState::TargetSelected
    } else if k == "TRACKING"@ {
        SystemState::Tracking
    } else if k == "TRACKING_DEGRADED"@ {
        SystemState::TrackingDegraded
    } else if k == "LOST"@ {
        SystemState::Lost
    } else if k == "RTH"@ {
        SystemState::Rth
    } else if k == "ABORT"@ {
        SystemState::Abort
    } else {
        SystemState::Idle
    }
}

/// Reads an already uppercased state name.
pub fn state_from_keyword(k: &str) -> (s: SystemState)
    ensures
        s == state_keyword(k@),
{
    if str_eq(k, "IDLE") {
        SystemState::Idle
    } else if str_eq(k, "ARMED") {
        SystemState::Armed
    } else if str_eq(k, "SCANNING") {
        SystemState::Scanning
    } else if str_eq(k, "TARGET_SELECTED") {
        SystemState::TargetSelected
    } else if str_eq(k, "TRACKING") {
        SystemState::Tracking
    } else if str_eq(k, "TRACKING_DEGRADED") {
        SystemState::TrackingDegraded
    } else if str_eq(k, "LOST") {
        SystemState::Lost
    } else if str_eq(k, "RTH") {
        SystemState::Rth
    } else if str_eq(k, "ABORT") {
        SystemState::Abort
    } else {
        SystemState::Idle
    }
}

/// Reads a state name written in any case (IDLE for unknown names).
pub fn parse_state(s: &str) -> (r: SystemState)
    ensures
        r == state_keyword(upper_text(s@)),
{
    let upper = to_upper(s);
    state_from_keyword(upper.as_str())
}

/// Every state's display name reads back as that state.
pub proof fn state_names_read_back(s: SystemState)
    ensures
        state_keyword(crate::types::state_name(s)) == s,
{
    reveal_strlit("IDLE");
    reveal_strlit("ARMED");
    reveal_strlit("SCANNING");
    reveal_strlit("TARGET_SELECTED");
    reveal_strlit("TRACKING");
    reveal_strlit("TRACKING_DEGRADED");
    reveal_strlit("LOST");
    reveal_strlit("RTH");
    reveal_strlit("ABORT");
    match s {
        SystemState::Idle => {
        },
        SystemState::Armed => {
            assert("ARMED"@.len() != "IDLE"@.len());
        },
        SystemState::Scanning => {
            assert("SCANNING"@.len() != "IDLE"@.len());
            assert("SCANNING"@.len() != "ARMED"@.len());
        },
        SystemState::TargetSelected => {
            assert("TARGET_SELECTED"@.len() != "IDLE"@.len());
            assert("TARGET_SELECTED"@.len() != "ARMED"@.len());
            assert("TARGET_SELECTED"@.len() != "SCANNING"@.len());
        },
        SystemState::Tracking => {
            assert("TRACKING"@.len() != "IDLE"@.len());
            assert("TRACKING"@.len() != "ARMED"@.len());
            assert("TRACKING"@[0] != "SCANNING"@[0]);
            assert("TRACKING"@.len() != "TARGET_SELECTED"@.len());
        },
        SystemState::TrackingDegraded => {
            assert("TRACKING_DEGRADED"@.len() != "IDLE"@.len());
            assert("TRACKING_DEGRADED"@.len() != "ARMED"@.len());
            assert("TRACKING_DEGRADED"@.len() != "SCANNING"@.len());
            assert("TRACKING_DEGRADED"@.len() != "TARGET_SELECTED"@.len());
            assert("TRACKING_DEGRADED"@.len() != "TRACKING"@.len());
        },
        SystemState::Lost => {
            assert("LOST"@[0] != "IDLE"@[0]);
            assert("LOST"@.len() != "ARMED"@.len());
            assert("LOST"@.len() != "SCANNING"@.len());
            assert("LOST"@.len() != "TARGET_SELECTED"@.len());
            assert("LOST"@.len() != "TRACKING"@.len());
            assert("LOST"@.len() != "TRACKING_DEGRADED"@.len());
        },
        SystemState::Rth => {
            assert("RTH"@.len() != "IDLE"@.len());
            assert("RTH"@.len() != "ARMED"@.len());
            assert("RTH"@.len() != "SCANNING"@.len());
            assert("RTH"@.len() != "TARGET_SELECTED"@.len());
            assert("RTH"@.len() != "TRACKING"@.len());
            assert("RTH"@.len() != "TRACKING_DEGRADED"@.len());
            assert("RTH"@.len() != "LOST"@.len());
        },
        SystemState::Abort => {
            assert("ABORT"@.len() != "IDLE"@.len());
            assert("ABORT"@[1] != "ARMED"@[1]);
            assert("ABORT"@.len() != "SCANNING"@.len());
            assert("ABORT"@.len() != "TARGET_SELECTED"@.len());
            assert("ABORT"@.len() != "TRACKING"@.len());
            assert("ABORT"@.len() != "TRACKING_DEGRADED"@.len());
            assert("ABORT"@.len() != "LOST"@.len());
            assert("ABORT"@.len() != "RTH"@.len());
        },
    }
}

} // verus!
