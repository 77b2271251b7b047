//! Event-bus vocabulary and the commander's bus loop bookkeeping: topic
//! names, bus configuration, the commander's published status and the
//! per-track control decisions.

use vstd::prelude::*;
use vstd::string::StringExecFns;
use crate::types::SystemState;

verus! {

/// Topic of per-frame detections.
pub const DETECTIONS: &'static str = "at/detections";
/// Topic of autopilot telemetry.
pub const TELEMETRY: &'static str = "at/telemetry";
/// Topic of operator and state-machine commands.
pub const COMMANDS: &'static str = "at/commands";
/// Topic of configuration.
pub const CONFIG: &'static str = "at/config";

/// Version of the bus message contract.
pub const CONTRACT_VERSION: u8 = 1;

/// The status topic of a component: `at/status/{component}`.
pub fn status(component: &str) -> (t: String)
    ensures
        t@ == "at/status/"@ + component@,
{
    let mut t = "at/status/".to_owned();
    t.append(component);
    t
}

/// Configuration of a bus session.
#[derive(Debug, Clone)]
pub struct BusConfig {
    /// Endpoint, e.g. `tcp/127.0.0.1:7447`.
    pub endpoint: String,
    /// Start the listener (first process) instead of connecting.
    pub listen: bool,
    /// Prefix isolating sessions (demos, tests).
    pub scope: String,
}

impl Default for BusConfig {
    fn default() -> (c: Self)
        ensures
            c.endpoint@ == "tcp/127.0.0.1:7447"@,
            c.listen,
            c.scope@ == Seq::<char>::empty(),
    {
        BusConfig { endpoint: "tcp/127.0.0.1:7447".to_owned(), listen: true, scope: String::new() }
    }
}

/// The debug name of a state (its variant name), as published on the bus.
pub open spec fn state_debug_name(s: SystemState) -> Seq<char> {
    match s {
        SystemState::Idle => "Idle"@,
        SystemState::Armed => "Armed"@,
        SystemState::Scanning => "Scanning"@,
        SystemState::TargetSelected => "TargetSelected"@,
        SystemState::Tracking => "Tracking"@,
        SystemState::TrackingDegraded => "TrackingDegraded"@,
        SystemState::Lost => "Lost"@,
        SystemState::Rth => "Rth"@,
        SystemState::Abort => "Abort"@,
    }
}

/// The debug name of a state.
pub fn state_debug_str(s: SystemState) -> (n: &'static str)
    ensures
        n@ == state_debug_name(s),
{
    match s {
        SystemState::Idle => "Idle",
        SystemState::Armed => "Armed",
        SystemState::Scanning => "Scanning",
        SystemState::TargetSelected => "TargetSelected",
        SystemState::Tracking => "Tracking",
        SystemState::TrackingDegraded => "TrackingDegraded",
        SystemState::Lost => "Lost",
        SystemState::Rth => "Rth",
        SystemState::Abort => "Abort",
    }
}

/// Commander status published on the bus.
#[derive(Debug, Clone)]
pub struct CommanderStatus {
    pub v: u8,
    pub state: String,
    pub active_target: Option<u64>,
    pub tracks_received: u64,
    pub telemetry_received: u64,
    pub corrections_sent: u64,
    pub corrections_suppressed: u64,
}

/// Counters of a bus run.
#[derive(Debug, Clone, Copy, PartialEq, Eq, Structural)]
pub struct CommanderBusStats {
    pub tracks_received: u64,
    pub telemetry_received: u64,
    pub corrections_sent: u64,
    pub corrections_suppressed: u64,
}

impl Default for CommanderBusStats {
    fn default() -> (s: Self)
        ensures
            s.tracks_received == 0,
            s.telemetry_received == 0,
            s.corrections_sent == 0,
            s.corrections_suppressed == 0,
    {
        CommanderBusStats { tracks_received: 0, telemetry_received: 0, corrections_sent: 0, corrections_suppressed: 0 }
    }
}

impl CommanderBusStats {
    /// Accounts for one update of the commander on a track: when it
    /// succeeded, a grown sent counter of the rate limiter becomes the
    /// number of corrections sent, otherwise the correction counts as
    /// suppressed; a failed update changes nothing.
    pub fn record_update(&mut self, ok: bool, sent_before: u64, sent_after: u64)
        requires
            old(self).corrections_suppressed < u64::MAX,
        ensures
            !ok ==> *final(self) == *old(self),
            ok && sent_after > sent_before ==> *final(self) == (CommanderBusStats { corrections_sent: sent_after, ..*old(self) }),
            ok && sent_after <= sent_before ==> *final(self) == (CommanderBusStats {
                corrections_suppressed: (old(self).corrections_suppressed + 1) as u64,
                ..*old(self)
            }),
    {
        if ok {
            if sent_after > sent_before {
                self.corrections_sent = sent_after;
            } else {
                self.corrections_suppressed = self.corrections_suppressed + 1;
            }
        }
    }

    /// The status to publish for the current counters.
    pub fn status_message(&self, state: SystemState, active_target: Option<u64>) -> (m: CommanderStatus)
        ensures
            m.v == CONTRACT_VERSION,
            m.state@ == state_debug_name(state),
            m.active_target == active_target,
            m.tracks_received == self.tracks_received,
            m.telemetry_received == self.telemetry_received,
            m.corrections_sent == self.corrections_sent,
            m.corrections_suppressed == self.corrections_suppressed,
    {
        CommanderStatus {
            v: CONTRACT_VERSION,
            state: state_debug_str(state).to_owned(),
            active_target,
            tracks_received: self.tracks_received,
            telemetry_received: self.telemetry_received,
            corrections_sent: self.corrections_sent,
            corrections_suppressed: self.corrections_suppressed,
        }
    }
}

/// The first track seen becomes the active target: a track is selected
/// only while no target is active.
pub fn should_select_track(active: Option<u64>, track_id: u64) -> (b: bool)
    ensures
        b == (active != Some(track_id) && active is None),
{
    active.is_none()
}

/// Control follows only a fresh track of the active target.
pub fn should_control_track(active: Option<u64>, track_id: u64, misses: u32, max_misses: u32) -> (b: bool)
    ensures
        b == (misses <= max_misses && active == Some(track_id)),
{
    misses <= max_misses && match active {
        Some(a) => a == track_id,
        None => false,
    }
}

} // verus!
