//! The commander's decision core: the state machine, the watchdogs, the
//! oscillation guard and the command rate limiter, and how operator
//! commands, per-frame updates and watchdog expiries change them.
//!
//! The flight controller itself is driven by the caller: a method that
//! needs the controller returns what to do (send a correction, command
//! RTL), and the caller reports back how the controller answered.

use vstd::prelude::*;
use vstd::string::StringExecFns;
use std::time::Instant;
use crate::anti_loop::{GuardConfig, GuardInput, GuardVerdict, OscillationGuard, fresh_guard_model,
    AntiLoopSnapshot, guard_step};
use crate::fc::{FcError, fc_error_text};
use crate::rate_limiter::{CommandRateLimiter, min_interval_for};
use crate::state_machine::{StateMachine, StateTransitionError, checked_step, transition_error_text};
use crate::types::{SystemState, FlightMode, instant_now, instant_elapsed_ns, state_name};
use crate::watchdogs::{WatchdogAction, WatchdogConfig, WatchdogEntry, WatchdogId, WatchdogRegistry,
    WatchdogSnapshot, utc_now_ms, lemma_expired_prefix_sound, lemma_expired_prefix_ordered,
    lemma_expired_prefix_complete, wd_index, WATCHDOG_COUNT};

verus! {

/// Errors of the commander.
#[derive(Debug, Clone)]
pub enum CommanderError {
    StateTransition(StateTransitionError),
    Fc(FcError),
    NotConnected,
    NotArmed,
    InvalidState { current: SystemState, expected: SystemState },
    NoActiveTarget,
    Internal(String),
}

/// The text under which a commander error is reported.
pub open spec fn commander_error_text(e: CommanderError) -> Seq<char> {
    match e {
        CommanderError::StateTransition(t) => "state transition error: "@ + transition_error_text(t),
        CommanderError::Fc(f) => "FC error: "@ + fc_error_text(f),
        CommanderError::NotConnected => "not connected \u{2014} call connect() first"@,
        CommanderError::NotArmed => "not armed \u{2014} call arm() first"@,
        CommanderError::InvalidState { current, expected } => "invalid state for operation: "@
            + state_name(current) + " (expected "@ + state_name(expected) + ")"@,
        CommanderError::NoActiveTarget => "no active target \u{2014} call select_target() first"@,
        CommanderError::Internal(s) => "commander internal error: "@ + s@,
    }
}

impl CommanderError {
    /// The text under which the error is reported.
    pub fn message(&self) -> (m: String)
        ensures
            m@ == commander_error_text(*self),
    {
        match self {
            CommanderError::StateTransition(t) => {
                let mut m = "state transition error: ".to_owned();
                let x = t.message();
                m.append(x.as_str());
                m
            },
            CommanderError::Fc(f) => {
                let mut m = "FC error: ".to_owned();
                let x = f.message();
                m.append(x.as_str());
                m
            },
            CommanderError::NotConnected => "not connected \u{2014} call connect() first".to_owned(),
            CommanderError::NotArmed => "not armed \u{2014} call arm() first".to_owned(),
            CommanderError::InvalidState { current, expected } => {
                let mut m = "invalid state for operation: ".to_owned();
                m.append(current.as_str());
                m.append(" (expected ");
                m.append(expected.as_str());
                m.append(")");
                m
            },
            CommanderError::NoActiveTarget => "no active target \u{2014} call select_target() first".to_owned(),
            CommanderError::Internal(s) => {
                let mut m = "commander internal error: ".to_owned();
                m.append(s.as_str());
                m
            },
        }
    }
}

/// Watchdog timeouts and oscillation-detector settings of the commander.
#[derive(Debug, Clone, Copy, PartialEq, Eq, Structural)]
pub struct CommanderSettings {
    pub video_loop_wdt_ms: u64,
    pub inference_loop_wdt_ms: u64,
    pub tracking_loop_wdt_ms: u64,
    pub command_loop_wdt_ms: u64,
    pub guard: GuardConfig,
}

/// The two clocks the commander reads: wall-clock milliseconds (watchdogs)
/// and monotonic nanoseconds since the commander was created (oscillation
/// guard, rate limiter, command age).
#[derive(Debug, Clone, Copy, PartialEq, Eq, Structural)]
pub struct Clocks {
    pub wall_ms: i64,
    pub mono_ns: u64,
}

/// Rate of correction commands to the flight controller (Hz).
pub const COMMAND_RATE_HZ: u32 = 10;

/// Timeout of the flight-controller heartbeat watchdog (ms).
pub const FC_HEARTBEAT_WDT_MS: u64 = 1000;

/// What the caller has to do after a per-frame update.
#[derive(Debug, Clone, Copy, PartialEq, Eq, Structural)]
pub enum UpdateStep {
    /// Nothing more: the cycle is complete.
    Completed,
    /// The guard let a correction through: pass it to the rate limiter
    /// (`rate_limit_correction`), send it to the controller if allowed,
    /// then complete the cycle (`finish_cycle`).
    SendCorrection,
    /// Oscillation escalated: the commander is in ABORT; command RTL and
    /// report the outcome (`abort_completed` on success).
    AbortRequested,
}

/// Health snapshot, for diagnostics.
#[derive(Debug, Clone)]
pub struct CommanderHealth {
    pub state: SystemState,
    pub transitions: u64,
    pub connected: bool,
    pub armed: bool,
    pub fc_mode: FlightMode,
    pub fc_heartbeat_stale: bool,
    pub active_target_id: Option<u64>,
    pub watchdogs: Vec<WatchdogSnapshot>,
    pub anti_loop: AntiLoopSnapshot,
    pub rate_limiter_sent: u64,
    pub rate_limiter_dropped: u64,
    /// `u64::MAX` when no cycle has completed yet.
    pub last_command_age_ms: u64,
}

/// The commander's decision core.
pub struct CommanderCore {
    state: StateMachine,
    watchdogs: WatchdogRegistry,
    guard: OscillationGuard,
    rate_limiter: CommandRateLimiter,
    active_target_id: Option<u64>,
    connected: bool,
    origin: Instant,
    last_command_ns: Option<u64>,
}

/// States in which the operator may select a target.
pub open spec fn selectable(s: SystemState) -> bool {
    s == SystemState::Scanning || s == SystemState::Tracking || s == SystemState::TrackingDegraded
        || s == SystemState::Lost
}

/// States in which per-frame corrections are produced.
pub open spec fn correcting(s: SystemState) -> bool {
    s == SystemState::Tracking || s == SystemState::TrackingDegraded
}

/// Whether the list holds an expiry with the Degrade action.
pub open spec fn has_degrade(l: Seq<(WatchdogId, WatchdogAction)>) -> bool {
    exists|k: int| 0 <= k < l.len() && (#[trigger] l[k]).1 == WatchdogAction::Degrade
}

/// Whether the list names a watchdog.
pub open spec fn lists(l: Seq<(WatchdogId, WatchdogAction)>, id: WatchdogId) -> bool {
    exists|k: int| 0 <= k < l.len() && (#[trigger] l[k]).0 == id
}

/// An entry after one more processed expiry.
pub open spec fn noted(e: Option<WatchdogEntry>) -> Option<WatchdogEntry> {
    match e {
        Some(x) => Some(WatchdogEntry { expiry_count: (x.expiry_count + 1) as u64, ..x }),
        None => None,
    }
}

/// Reads the wall clock and the commander's monotonic clock.
pub fn read_clocks(core: &CommanderCore) -> (c: Clocks) {
    Clocks { wall_ms: utc_now_ms(), mono_ns: instant_elapsed_ns(&core.origin) }
}

impl CommanderCore {
    pub closed spec fn sm(&self) -> StateMachine {
        self.state
    }

    pub closed spec fn wd(&self) -> WatchdogRegistry {
        self.watchdogs
    }

    pub closed spec fn osc(&self) -> OscillationGuard {
        self.guard
    }

    pub closed spec fn limiter(&self) -> CommandRateLimiter {
        self.rate_limiter
    }

    pub closed spec fn active(&self) -> Option<u64> {
        self.active_target_id
    }

    pub closed spec fn is_connected(&self) -> bool {
        self.connected
    }

    pub closed spec fn last_command(&self) -> Option<u64> {
        self.last_command_ns
    }

    /// Structural well-formedness: the guard's threshold has a positive
    /// denominator. Established by `new` and kept by every method.
    pub open spec fn wf(&self) -> bool {
        self.osc().spec_config().threshold_den > 0
    }

    /// Every counter the next operation may increment has room left.
    pub open spec fn headroom(&self) -> bool {
        &&& self.sm().spec_count() < u64::MAX - 2
        &&& self.wd().counters_below_max()
        &&& self.osc().counters_below_max()
        &&& self.limiter().spec_sent() < u64::MAX
        &&& self.limiter().spec_dropped() < u64::MAX
    }

    /// Whether every counter the next operation may increment has room
    /// left (callers check this before each operation).
    pub fn has_headroom(&self) -> (b: bool)
        ensures
            b == self.headroom(),
    {
        self.state.transition_count() < u64::MAX - 2 && self.watchdogs.has_counter_headroom()
            && self.guard.snapshot().suppressed_count < u64::MAX
            && self.guard.snapshot().allowed_count < u64::MAX
            && self.guard.snapshot().oscillation_trigger_count < u64::MAX
            && self.rate_limiter.sent_count() < u64::MAX && self.rate_limiter.dropped_count()
            < u64::MAX
    }

    /// A commander in IDLE, not connected, with the video, inference and
    /// tracking watchdogs (action Degrade) and the command-loop watchdog
    /// (action Abort) registered at `wall_ms`, and a 10 Hz rate limiter.
    pub fn new(settings: CommanderSettings, wall_ms: i64) -> (c: Self)
        requires
            settings.guard.threshold_den > 0,
        ensures
            c.wf(),
            c.sm().spec_state() == SystemState::Idle,
            c.sm().spec_count() == 0,
            !c.is_connected(),
            c.active() is None,
            c.last_command() is None,
            c.osc().spec_config() == settings.guard,
            c.osc().model() == fresh_guard_model(),
            c.limiter().spec_min_interval() == min_interval_for(COMMAND_RATE_HZ),
            c.limiter().spec_last_sent() is None,
            c.limiter().spec_sent() == 0,
            c.limiter().spec_dropped() == 0,
            c.headroom(),
            c.wd().entry(WatchdogId::VideoLoop) == Some(
                WatchdogEntry {
                    last_fed_ms: wall_ms,
                    config: WatchdogConfig::new_spec(settings.video_loop_wdt_ms, WatchdogAction::Degrade),
                    expiry_count: 0,
                    feed_count: 0,
                },
            ),
            c.wd().entry(WatchdogId::InferenceLoop) == Some(
                WatchdogEntry {
                    last_fed_ms: wall_ms,
                    config: WatchdogConfig::new_spec(settings.inference_loop_wdt_ms, WatchdogAction::Degrade),
                    expiry_count: 0,
                    feed_count: 0,
                },
            ),
            c.wd().entry(WatchdogId::TrackingLoop) == Some(
                WatchdogEntry {
                    last_fed_ms: wall_ms,
                    config: WatchdogConfig::new_spec(settings.tracking_loop_wdt_ms, WatchdogAction::Degrade),
                    expiry_count: 0,
                    feed_count: 0,
                },
            ),
            c.wd().entry(WatchdogId::CommandLoop) == Some(
                WatchdogEntry {
                    last_fed_ms: wall_ms,
                    config: WatchdogConfig::new_spec(settings.command_loop_wdt_ms, WatchdogAction::Abort),
                    expiry_count: 0,
                    feed_count: 0,
                },
            ),
            c.wd().entry(WatchdogId::FcHeartbeat) is None,
    {
        let mut watchdogs = WatchdogRegistry::new();
        watchdogs.register_at(
            WatchdogId::VideoLoop,
            WatchdogConfig::new(settings.video_loop_wdt_ms, WatchdogAction::Degrade),
            wall_ms,
        );
        watchdogs.register_at(
            WatchdogId::InferenceLoop,
            WatchdogConfig::new(settings.inference_loop_wdt_ms, WatchdogAction::Degrade),
            wall_ms,
        );
        watchdogs.register_at(
            WatchdogId::TrackingLoop,
            WatchdogConfig::new(settings.tracking_loop_wdt_ms, WatchdogAction::Degrade),
            wall_ms,
        );
        watchdogs.register_at(
            WatchdogId::CommandLoop,
            WatchdogConfig::new(settings.command_loop_wdt_ms, WatchdogAction::Abort),
            wall_ms,
        );
        let guard = OscillationGuard::new(settings.guard);
        CommanderCore {
            state: StateMachine::new(SystemState::Idle),
            watchdogs,
            guard,
            rate_limiter: CommandRateLimiter::new(COMMAND_RATE_HZ),
            active_target_id: None,
            connected: false,
            origin: instant_now(),
            last_command_ns: None,
        }
    }

    /// Reads both clocks (time-dependent).
    pub fn clocks(&self) -> (c: Clocks) {
        read_clocks(self)
    }

    pub fn state(&self) -> (s: SystemState)
        ensures
            s == self.sm().spec_state(),
    {
        self.state.state()
    }

    pub fn transition_count(&self) -> (n: u64)
        ensures
            n == self.sm().spec_count(),
    {
        self.state.transition_count()
    }

    pub fn active_target_id(&self) -> (t: Option<u64>)
        ensures
            t == self.active(),
    {
        self.active_target_id
    }

    pub fn connected(&self) -> (b: bool)
        ensures
            b == self.is_connected(),
    {
        self.connected
    }

    pub fn watchdog_registry(&self) -> (w: &WatchdogRegistry)
        ensures
            *w == self.wd(),
    {
        &self.watchdogs
    }

    /// The controller connected: the commander is connected, the heartbeat
    /// watchdog (1 s, action Abort) is registered at `now`, and the state
    /// machine is asked to go to ARMED.
    pub fn on_connected(&mut self, now: Clocks) -> (r: Result<(), CommanderError>)
        requires
            old(self).headroom(),
        ensures
            final(self).wf() == old(self).wf(),
            final(self).is_connected(),
            final(self).wd().entry(WatchdogId::FcHeartbeat) == Some(
                WatchdogEntry {
                    last_fed_ms: now.wall_ms,
                    config: WatchdogConfig::new_spec(FC_HEARTBEAT_WDT_MS, WatchdogAction::Abort),
                    expiry_count: 0,
                    feed_count: 0,
                },
            ),
            forall|id: WatchdogId|
                id != WatchdogId::FcHeartbeat ==> final(self).wd().entry(id) == old(self).wd().entry(id),
            ({
                let step = checked_step(old(self).sm().spec_state(), old(self).sm().spec_count() as int,
                    SystemState::Armed);
                &&& final(self).sm().spec_state() == step.0
                &&& final(self).sm().spec_count() == step.1
                &&& step.2 ==> r is Ok
                &&& !step.2 ==> (r matches Err(CommanderError::StateTransition(
                    StateTransitionError::Invalid { from, to },
                )) && from == old(self).sm().spec_state() && to == SystemState::Armed)
            }),
            final(self).active() == old(self).active(),
            final(self).osc() == old(self).osc(),
            final(self).limiter() == old(self).limiter(),
            final(self).last_command() == old(self).last_command(),
    {
        self.connected = true;
        self.watchdogs.register_at(
            WatchdogId::FcHeartbeat,
            WatchdogConfig::new(FC_HEARTBEAT_WDT_MS, WatchdogAction::Abort),
            now.wall_ms,
        );
        match self.state.try_transition(SystemState::Armed) {
            Ok(()) => Ok(()),
            Err(e) => Err(CommanderError::StateTransition(e)),
        }
    }

    /// The controller disconnected.
    pub fn on_disconnected(&mut self)
        ensures
            !final(self).is_connected(),
            final(self).sm() == old(self).sm(),
            final(self).wd() == old(self).wd(),
            final(self).osc() == old(self).osc(),
            final(self).limiter() == old(self).limiter(),
            final(self).active() == old(self).active(),
            final(self).last_command() == old(self).last_command(),
    {
        self.connected = false;
    }

    /// Operations that talk to the controller (arm, disarm, mode, ROI)
    /// need a connection.
    pub fn require_connected(&self) -> (r: Result<(), CommanderError>)
        ensures
            self.is_connected() ==> r is Ok,
            !self.is_connected() ==> r matches Err(CommanderError::NotConnected),
    {
        if !self.connected {
            return Err(CommanderError::NotConnected);
        }
        Ok(())
    }

    /// The controller disarmed: the state machine is asked to go to IDLE
    /// (a refusal is ignored) and there is no active target any more.
    pub fn on_disarmed(&mut self)
        requires
            old(self).headroom(),
        ensures
            ({
                let step = checked_step(old(self).sm().spec_state(), old(self).sm().spec_count() as int,
                    SystemState::Idle);
                &&& final(self).sm().spec_state() == step.0
                &&& final(self).sm().spec_count() == step.1
            }),
            final(self).active() is None,
            final(self).is_connected() == old(self).is_connected(),
            final(self).wd() == old(self).wd(),
            final(self).osc() == old(self).osc(),
            final(self).limiter() == old(self).limiter(),
            final(self).last_command() == old(self).last_command(),
    {
        let _ = self.state.try_transition(SystemState::Idle);
        self.active_target_id = None;
    }

    /// Starts scanning: the state machine must accept SCANNING; on success
    /// there is no active target.
    pub fn start_scanning(&mut self) -> (r: Result<(), CommanderError>)
        requires
            old(self).headroom(),
        ensures
            ({
                let step = checked_step(old(self).sm().spec_state(), old(self).sm().spec_count() as int,
                    SystemState::Scanning);
                &&& final(self).sm().spec_state() == step.0
                &&& final(self).sm().spec_count() == step.1
                &&& step.2 ==> (r is Ok && final(self).active() is None)
                &&& !step.2 ==> (r matches Err(CommanderError::StateTransition(
                    StateTransitionError::Invalid { from, to },
                )) && from == old(self).sm().spec_state() && to == SystemState::Scanning
                    && final(self).active() == old(self).active())
            }),
            final(self).is_connected() == old(self).is_connected(),
            final(self).wd() == old(self).wd(),
            final(self).osc() == old(self).osc(),
            final(self).limiter() == old(self).limiter(),
            final(self).last_command() == old(self).last_command(),
    {
        match self.state.try_transition(SystemState::Scanning) {
            Ok(()) => {
                self.active_target_id = None;
                Ok(())
            },
            Err(e) => Err(CommanderError::StateTransition(e)),
        }
    }

    /// Selects a target: outside SCANNING, TRACKING, TRACKING_DEGRADED and
    /// LOST this is refused with `InvalidState` (expected SCANNING).
    /// Otherwise the machine goes to TARGET_SELECTED and then TRACKING, and
    /// the target becomes active; a refused step is reported as a
    /// transition error and leaves the commander unchanged.
    pub fn select_target(&mut self, target_id: u64) -> (r: Result<(), CommanderError>)
        requires
            old(self).headroom(),
        ensures
            !selectable(old(self).sm().spec_state()) ==> {
                &&& r matches Err(CommanderError::InvalidState { current, expected })
                &&& current == old(self).sm().spec_state()
                &&& expected == SystemState::Scanning
                &&& final(self).sm() == old(self).sm()
                &&& final(self).active() == old(self).active()
            },
            old(self).sm().spec_state() == SystemState::Scanning ==> {
                &&& r is Ok
                &&& final(self).sm().spec_state() == SystemState::Tracking
                &&& final(self).sm().spec_count() == old(self).sm().spec_count() + 2
                &&& final(self).active() == Some(target_id)
            },
            selectable(old(self).sm().spec_state()) && old(self).sm().spec_state()
                != SystemState::Scanning ==> {
                &&& r matches Err(CommanderError::StateTransition(
                    StateTransitionError::Invalid { from, to },
                ))
                &&& from == old(self).sm().spec_state()
                &&& to == SystemState::TargetSelected
                &&& final(self).sm() == old(self).sm()
                &&& final(self).active() == old(self).active()
            },
            final(self).is_connected() == old(self).is_connected(),
            final(self).wd() == old(self).wd(),
            final(self).osc() == old(self).osc(),
            final(self).limiter() == old(self).limiter(),
            final(self).last_command() == old(self).last_command(),
    {
        let current = self.state.state();
        match current {
            SystemState::Scanning | SystemState::Tracking | SystemState::TrackingDegraded
            | SystemState::Lost => {
                match self.state.try_transition(SystemState::TargetSelected) {
                    Ok(()) => {},
                    Err(e) => {
                        return Err(CommanderError::StateTransition(e));
                    },
                }
                match self.state.try_transition(SystemState::Tracking) {
                    Ok(()) => {},
                    Err(e) => {
                        return Err(CommanderError::StateTransition(e));
                    },
                }
                self.active_target_id = Some(target_id);
                Ok(())
            },
            _ => Err(CommanderError::InvalidState { current, expected: SystemState::Scanning }),
        }
    }

    /// Feeds the video-loop watchdog at `now`.
    pub fn feed_video_watchdog(&mut self, now: Clocks)
        requires
            old(self).headroom(),
        ensures
            final(self).wd().entry(WatchdogId::VideoLoop) == match old(self).wd().entry(WatchdogId::VideoLoop) {
                Some(e) => Some(crate::watchdogs::fed_entry(e, now.wall_ms)),
                None => None,
            },
            forall|id: WatchdogId|
                id != WatchdogId::VideoLoop ==> final(self).wd().entry(id) == old(self).wd().entry(id),
            final(self).sm() == old(self).sm(),
            final(self).osc() == old(self).osc(),
            final(self).limiter() == old(self).limiter(),
            final(self).active() == old(self).active(),
            final(self).is_connected() == old(self).is_connected(),
            final(self).last_command() == old(self).last_command(),
    {
        self.watchdogs.feed_at(WatchdogId::VideoLoop, now.wall_ms);
    }
    /// Feeds any watchdog at `now` (loops that report their progress).
    pub fn feed_watchdog(&mut self, id: WatchdogId, now: Clocks)
        requires
            old(self).headroom(),
        ensures
            final(self).wd().entry(id) == match old(self).wd().entry(id) {
                Some(e) => Some(crate::watchdogs::fed_entry(e, now.wall_ms)),
                None => None,
            },
            forall|other: WatchdogId|
                other != id ==> final(self).wd().entry(other) == old(self).wd().entry(other),
            final(self).sm() == old(self).sm(),
            final(self).osc() == old(self).osc(),
            final(self).limiter() == old(self).limiter(),
            final(self).active() == old(self).active(),
            final(self).is_connected() == old(self).is_connected(),
            final(self).last_command() == old(self).last_command(),
    {
        self.watchdogs.feed_at(id, now.wall_ms);
    }

    /// Forces ABORT and counts the RTL command as sent past the rate
    /// limiter; the caller then commands RTL and, on success, calls
    /// `abort_completed`.
    pub fn begin_abort(&mut self, now: Clocks)
        requires
            old(self).headroom(),
        ensures
            final(self).sm().spec_state() == SystemState::Abort,
            final(self).sm().spec_count() == if old(self).sm().spec_state() == SystemState::Abort {
                old(self).sm().spec_count() as int
            } else {
                old(self).sm().spec_count() + 1
            },
            final(self).limiter().spec_sent() == old(self).limiter().spec_sent() + 1,
            final(self).limiter().spec_dropped() == old(self).limiter().spec_dropped(),
            final(self).limiter().spec_last_sent() == Some(now.mono_ns),
            final(self).limiter().spec_min_interval() == old(self).limiter().spec_min_interval(),
            final(self).wd() == old(self).wd(),
            final(self).osc() == old(self).osc(),
            final(self).active() == old(self).active(),
            final(self).is_connected() == old(self).is_connected(),
            final(self).last_command() == old(self).last_command(),
    {
        self.state.force_transition(SystemState::Abort);
        self.rate_limiter.force_send_at(now.mono_ns);
    }

    /// RTL was commanded successfully after an abort: no active target.
    pub fn abort_completed(&mut self)
        ensures
            final(self).active() is None,
            final(self).sm() == old(self).sm(),
            final(self).wd() == old(self).wd(),
            final(self).osc() == old(self).osc(),
            final(self).limiter() == old(self).limiter(),
            final(self).is_connected() == old(self).is_connected(),
            final(self).last_command() == old(self).last_command(),
    {
        self.active_target_id = None;
    }

    /// Returns to IDLE from ABORT; from any other state this is refused
    /// with `InvalidState` (expected ABORT) and changes nothing.
    pub fn reset(&mut self) -> (r: Result<(), CommanderError>)
        requires
            old(self).headroom(),
        ensures
            old(self).sm().spec_state() == SystemState::Abort ==> {
                &&& r is Ok
                &&& final(self).sm().spec_state() == SystemState::Idle
                &&& final(self).sm().spec_count() == old(self).sm().spec_count() + 1
                &&& final(self).active() is None
            },
            old(self).sm().spec_state() != SystemState::Abort ==> {
                &&& r matches Err(CommanderError::InvalidState { current, expected })
                &&& current == old(self).sm().spec_state()
                &&& expected == SystemState::Abort
                &&& final(self).sm() == old(self).sm()
                &&& final(self).active() == old(self).active()
            },
            final(self).wd() == old(self).wd(),
            final(self).osc() == old(self).osc(),
            final(self).limiter() == old(self).limiter(),
            final(self).is_connected() == old(self).is_connected(),
            final(self).last_command() == old(self).last_command(),
    {
        let current = self.state.state();
        if current != SystemState::Abort {
            return Err(CommanderError::InvalidState { current, expected: SystemState::Abort });
        }
        match self.state.try_transition(SystemState::Idle) {
            Ok(()) => {},
            Err(e) => {
                return Err(CommanderError::StateTransition(e));
            },
        }
        self.active_target_id = None;
        Ok(())
    }

    /// Completes a per-frame cycle: the command-loop watchdog is fed and
    /// the cycle's time recorded.
    pub fn finish_cycle(&mut self, now: Clocks)
        requires
            old(self).headroom(),
        ensures
            final(self).wd().entry(WatchdogId::CommandLoop) == match old(self).wd().entry(WatchdogId::CommandLoop) {
                Some(e) => Some(crate::watchdogs::fed_entry(e, now.wall_ms)),
                None => None,
            },
            forall|other: WatchdogId|
                other != WatchdogId::CommandLoop ==> final(self).wd().entry(other) == old(self).wd().entry(other),
            final(self).last_command() == Some(now.mono_ns),
            final(self).sm() == old(self).sm(),
            final(self).osc() == old(self).osc(),
            final(self).limiter() == old(self).limiter(),
            final(self).active() == old(self).active(),
            final(self).is_connected() == old(self).is_connected(),
    {
        self.watchdogs.feed_at(WatchdogId::CommandLoop, now.wall_ms);
        self.last_command_ns = Some(now.mono_ns);
    }

    /// Whether a correction at `now` passes the rate limiter (and counts it
    /// as sent or dropped).
    pub fn rate_limit_correction(&mut self, now: Clocks) -> (ok: bool)
        requires
            old(self).headroom(),
        ensures
            ok == crate::rate_limiter::send_allowed(
                old(self).limiter().spec_last_sent(),
                now.mono_ns,
                old(self).limiter().spec_min_interval(),
            ),
            ok ==> final(self).limiter().spec_sent() == old(self).limiter().spec_sent() + 1
                && final(self).limiter().spec_dropped() == old(self).limiter().spec_dropped(),
            !ok ==> final(self).limiter().spec_dropped() == old(self).limiter().spec_dropped() + 1
                && final(self).limiter().spec_sent() == old(self).limiter().spec_sent(),
            final(self).limiter().spec_min_interval() == old(self).limiter().spec_min_interval(),
            final(self).sm() == old(self).sm(),
            final(self).wd() == old(self).wd(),
            final(self).osc() == old(self).osc(),
            final(self).active() == old(self).active(),
            final(self).is_connected() == old(self).is_connected(),
            final(self).last_command() == old(self).last_command(),
    {
        self.rate_limiter.try_send_at(now.mono_ns)
    }
    /// Per-frame update, first half: the
    /// inference and tracking watchdogs are fed; when a target is active,
    /// an offset is known and the commander is TRACKING or
    /// TRACKING_DEGRADED, the oscillation guard decides on the correction:
    /// a pass asks the caller to send it; an oscillation degrades the
    /// state machine (a refusal is ignored); an escalation forces ABORT.
    /// Unless a correction is to be sent or an abort was started, the
    /// cycle is completed here (`finish_cycle`).
    pub fn update_begin(&mut self, now: Clocks, target: Option<GuardInput>) -> (step: UpdateStep)
        requires
            old(self).headroom(),
            old(self).wf(),
            now.mono_ns <= u64::MAX - crate::anti_loop::FREEZE_NS,
        ensures
            final(self).wf(),
            final(self).osc().spec_config() == old(self).osc().spec_config(),
            final(self).limiter().spec_min_interval() == old(self).limiter().spec_min_interval(),
            final(self).limiter().spec_dropped() == old(self).limiter().spec_dropped(),
            final(self).active() == old(self).active(),
            final(self).is_connected() == old(self).is_connected(),
            final(self).wd().entry(WatchdogId::InferenceLoop) == fed_opt(old(self).wd().entry(WatchdogId::InferenceLoop), now.wall_ms),
            final(self).wd().entry(WatchdogId::TrackingLoop) == fed_opt(old(self).wd().entry(WatchdogId::TrackingLoop), now.wall_ms),
            final(self).wd().entry(WatchdogId::VideoLoop) == old(self).wd().entry(WatchdogId::VideoLoop),
            final(self).wd().entry(WatchdogId::FcHeartbeat) == old(self).wd().entry(WatchdogId::FcHeartbeat),
            final(self).wd().entry(WatchdogId::CommandLoop) == if step == UpdateStep::Completed {
                fed_opt(old(self).wd().entry(WatchdogId::CommandLoop), now.wall_ms)
            } else {
                old(self).wd().entry(WatchdogId::CommandLoop)
            },
            final(self).last_command() == if step == UpdateStep::Completed {
                Some(now.mono_ns)
            } else {
                old(self).last_command()
            },
            !engaged(old(self).active(), target, old(self).sm().spec_state()) ==> {
                &&& step == UpdateStep::Completed
                &&& final(self).sm() == old(self).sm()
                &&& final(self).osc().model() == old(self).osc().model()
                &&& final(self).limiter() == old(self).limiter()
            },
            engaged(old(self).active(), target, old(self).sm().spec_state()) ==> ({
                let (m, v) = guard_step(old(self).osc().spec_config(), old(self).osc().model(), now.mono_ns, target->0);
                let deg = checked_step(old(self).sm().spec_state(), old(self).sm().spec_count() as int,
                    SystemState::TrackingDegraded);
                &&& final(self).osc().model() == m
                &&& v == GuardVerdict::Allow ==> (step == UpdateStep::SendCorrection
                    && final(self).sm() == old(self).sm() && final(self).limiter() == old(self).limiter())
                &&& v == GuardVerdict::Suppress ==> (step == UpdateStep::Completed
                    && final(self).sm() == old(self).sm() && final(self).limiter() == old(self).limiter())
                &&& v == GuardVerdict::Degrade ==> (step == UpdateStep::Completed
                    && final(self).sm().spec_state() == deg.0 && final(self).sm().spec_count() == deg.1
                    && final(self).limiter() == old(self).limiter())
                &&& v == GuardVerdict::Abort ==> (step == UpdateStep::AbortRequested
                    && final(self).sm().spec_state() == SystemState::Abort
                    && final(self).limiter().spec_sent() == old(self).limiter().spec_sent() + 1
                    && final(self).limiter().spec_last_sent() == Some(now.mono_ns))
            }),
    {
        self.watchdogs.feed_at(WatchdogId::InferenceLoop, now.wall_ms);
        self.watchdogs.feed_at(WatchdogId::TrackingLoop, now.wall_ms);
        if self.active_target_id.is_some() {
            match target {
                Some(input) => {
                    let st = self.state.state();
                    if st == SystemState::Tracking || st == SystemState::TrackingDegraded {
                        let v = self.guard.process_at(now.mono_ns, input);
                        match v {
                            GuardVerdict::Allow => {
                                return UpdateStep::SendCorrection;
                            },
                            GuardVerdict::Suppress => {},
                            GuardVerdict::Degrade => {
                                let _ = self.state.try_transition(SystemState::TrackingDegraded);
                            },
                            GuardVerdict::Abort => {
                                self.state.force_transition(SystemState::Abort);
                                self.rate_limiter.force_send_at(now.mono_ns);
                                return UpdateStep::AbortRequested;
                            },
                        }
                    }
                },
                None => {},
            }
        }
        self.watchdogs.feed_at(WatchdogId::CommandLoop, now.wall_ms);
        self.last_command_ns = Some(now.mono_ns);
        UpdateStep::Completed
    }
    /// Processes watchdog expiries at `now`: every expired watchdog's
    /// expiry count grows by one; an expiry with the Degrade action moves a
    /// TRACKING commander to TRACKING_DEGRADED. Expiries with the Abort
    /// action are only reported: the caller aborts. Returns the expired
    /// watchdogs and their actions, in registry order.
    pub fn process_watchdog_expiries(&mut self, now: Clocks) -> (r: Vec<(WatchdogId, WatchdogAction)>)
        requires
            old(self).headroom(),
        ensures
            r@ == old(self).wd().expired_at(now.wall_ms),
            forall|id: WatchdogId| #[trigger] final(self).wd().entry(id) == if lists(r@, id) {
                noted(old(self).wd().entry(id))
            } else {
                old(self).wd().entry(id)
            },
            old(self).sm().spec_state() == SystemState::Tracking && has_degrade(r@) ==> {
                &&& final(self).sm().spec_state() == SystemState::TrackingDegraded
                &&& final(self).sm().spec_count() == old(self).sm().spec_count() + 1
            },
            !(old(self).sm().spec_state() == SystemState::Tracking && has_degrade(r@))
                ==> final(self).sm() == old(self).sm(),
            final(self).osc() == old(self).osc(),
            final(self).limiter() == old(self).limiter(),
            final(self).active() == old(self).active(),
            final(self).is_connected() == old(self).is_connected(),
            final(self).last_command() == old(self).last_command(),
    {
        let expired = self.watchdogs.check_expired_at(now.wall_ms);
        let ghost slots = old(self).wd().view_slots();
        let ghost old_wd = old(self).wd();
        let ghost old_sm = old(self).sm();
        proof {
            old_wd.lemma_slots_count();
            lemma_expired_prefix_sound(slots, now.wall_ms, WATCHDOG_COUNT as int);
            lemma_expired_prefix_ordered(slots, now.wall_ms, WATCHDOG_COUNT as int);
        }
        let n = expired.len();
        let mut k: usize = 0;
        while k < n
            invariant
                n == expired@.len(),
                k <= n,
                expired@ == old_wd.expired_at(now.wall_ms),
                slots == old_wd.view_slots(),
                old_wd.counters_below_max(),
                old_sm.spec_count() < u64::MAX - 2,
                forall|j: int|
                    0 <= j < expired@.len() ==> {
                        let pair = #[trigger] expired@[j];
                        &&& 0 <= wd_index(pair.0) < WATCHDOG_COUNT
                        &&& slots[wd_index(pair.0)] matches Some(e)
                        &&& crate::watchdogs::entry_expired(e, now.wall_ms)
                        &&& e.config.on_expiry == pair.1
                    },
                forall|k1: int, k2: int|
                    0 <= k1 < k2 < expired@.len() ==> wd_index(#[trigger] expired@[k1].0) < wd_index(
                        #[trigger] expired@[k2].0,
                    ),
                forall|id: WatchdogId| #[trigger] self.watchdogs.entry(id) == if lists(expired@.take(k as int), id) {
                    noted(old_wd.entry(id))
                } else {
                    old_wd.entry(id)
                },
                old_sm.spec_state() == SystemState::Tracking && has_degrade(expired@.take(k as int)) ==> {
                    &&& self.state.spec_state() == SystemState::TrackingDegraded
                    &&& self.state.spec_count() == old_sm.spec_count() + 1
                },
                !(old_sm.spec_state() == SystemState::Tracking && has_degrade(expired@.take(k as int)))
                    ==> self.state == old_sm,
                self.guard == old(self).guard,
                self.rate_limiter == old(self).rate_limiter,
                self.active_target_id == old(self).active_target_id,
                self.connected == old(self).connected,
                self.last_command_ns == old(self).last_command_ns,
            decreases n - k,
        {
            let (id, action) = expired[k];
            proof {
                assert(expired@[k as int] == (id, action));
                assert(!lists(expired@.take(k as int), id)) by {
                    if lists(expired@.take(k as int), id) {
                        let j = choose|j: int| 0 <= j < k && (#[trigger] expired@.take(k as int)[j]).0 == id;
                        assert(expired@.take(k as int)[j] == expired@[j]);
                        assert(wd_index(expired@[j].0) < wd_index(expired@[k as int].0));
                    }
                }
                assert(self.watchdogs.entry(id) == old_wd.entry(id));
            }
            self.watchdogs.note_expiry_processed(id);
            match action {
                WatchdogAction::Degrade => {
                    if self.state.state() == SystemState::Tracking {
                        let _ = self.state.try_transition(SystemState::TrackingDegraded);
                    }
                },
                WatchdogAction::Abort => {},
            }
            proof {
                let t0 = expired@.take(k as int);
                let t1 = expired@.take(k + 1);
                assert(t1 =~= t0.push((id, action)));
                assert forall|other: WatchdogId| #[trigger] self.watchdogs.entry(other) == if lists(t1, other) {
                    noted(old_wd.entry(other))
                } else {
                    old_wd.entry(other)
                } by {
                    if other == id {
                        assert(t1[k as int].0 == id);
                    } else {
                        if lists(t1, other) {
                            let j = choose|j: int| 0 <= j < t1.len() && (#[trigger] t1[j]).0 == other;
                            assert(t0[j] == t1[j]);
                        }
                        if lists(t0, other) {
                            let j = choose|j: int| 0 <= j < t0.len() && (#[trigger] t0[j]).0 == other;
                            assert(t1[j] == t0[j]);
                        }
                    }
                }
                if has_degrade(t0) {
                    let j = choose|j: int| 0 <= j < t0.len() && (#[trigger] t0[j]).1 == WatchdogAction::Degrade;
                    assert(t1[j] == t0[j]);
                }
                if action == WatchdogAction::Degrade {
                    assert(t1[k as int].1 == WatchdogAction::Degrade);
                }
                if has_degrade(t1) && !has_degrade(t0) {
                    let j = choose|j: int| 0 <= j < t1.len() && (#[trigger] t1[j]).1 == WatchdogAction::Degrade;
                    if j < k {
                        assert(t0[j] == t1[j]);
                    }
                }
            }
            k = k + 1;
        }
        proof {
            assert(expired@.take(n as int) =~= expired@);
        }
        expired
    }

    /// Health snapshot at `now`; what the controller reports of itself
    /// (armed, mode, heartbeat staleness) is passed in by the caller.
    pub fn health_snapshot(&self, now: Clocks, armed: bool, fc_mode: FlightMode, fc_heartbeat_stale: bool) -> (h: CommanderHealth)
        ensures
            h.state == self.sm().spec_state(),
            h.transitions == self.sm().spec_count(),
            h.connected == self.is_connected(),
            h.armed == armed,
            h.fc_mode == fc_mode,
            h.fc_heartbeat_stale == fc_heartbeat_stale,
            h.active_target_id == self.active(),
            h.watchdogs@ == self.wd().snapshot_at_spec(now.wall_ms),
            h.anti_loop.frozen == self.osc().model().frozen,
            h.anti_loop.suppressed_count == self.osc().model().suppressed,
            h.anti_loop.allowed_count == self.osc().model().allowed,
            h.anti_loop.oscillation_trigger_count == self.osc().model().trigger_count,
            h.rate_limiter_sent == self.limiter().spec_sent(),
            h.rate_limiter_dropped == self.limiter().spec_dropped(),
            h.last_command_age_ms == match self.last_command() {
                Some(t) => (crate::anti_loop::since(now.mono_ns, t) / 1_000_000) as u64,
                None => u64::MAX,
            },
    {
        let age = match self.last_command_ns {
            Some(t) => {
                let d = if now.mono_ns >= t { now.mono_ns - t } else { 0 };
                d / 1_000_000
            },
            None => u64::MAX,
        };
        CommanderHealth {
            state: self.state.state(),
            transitions: self.state.transition_count(),
            connected: self.connected,
            armed,
            fc_mode,
            fc_heartbeat_stale,
            active_target_id: self.active_target_id,
            watchdogs: self.watchdogs.snapshot_at(now.wall_ms),
            anti_loop: self.guard.snapshot(),
            rate_limiter_sent: self.rate_limiter.sent_count(),
            rate_limiter_dropped: self.rate_limiter.dropped_count(),
            last_command_age_ms: age,
        }
    }
}

/// A watchdog entry after a feed at `now` (unregistered stays so).
pub open spec fn fed_opt(e: Option<WatchdogEntry>, now: i64) -> Option<WatchdogEntry> {
    match e {
        Some(x) => Some(crate::watchdogs::fed_entry(x, now)),
        None => None,
    }
}

/// Whether a per-frame update consults the oscillation guard.
pub open spec fn engaged(active: Option<u64>, target: Option<GuardInput>, s: SystemState) -> bool {
    active is Some && target is Some && correcting(s)
}

} // verus!
