//! The commander's deterministic state machine: a single allowed-transition
//! table, a checked transition and a forced (safety override) transition.

use vstd::prelude::*;
use vstd::string::StringExecFns;
use crate::types::{SystemState, state_name};

verus! {

/// Why a requested transition was refused.
#[derive(Debug, Clone, Copy, PartialEq, Eq, Structural)]
pub enum StateTransitionError {
    Invalid { from: SystemState, to: SystemState },
    TerminalState(SystemState),
}

/// The text under which an error is reported.
pub open spec fn transition_error_text(e: StateTransitionError) -> Seq<char> {
    match e {
        StateTransitionError::Invalid { from, to } =>
            "invalid transition: "@ + state_name(from) + " -> "@ + state_name(to),
        StateTransitionError::TerminalState(s) =>
            "cannot transition from terminal state: "@ + state_name(s),
    }
}

impl StateTransitionError {
    /// The human-readable message of the error.
    pub fn message(&self) -> (m: String)
        ensures
            m@ == transition_error_text(*self),
    {
        match self {
            StateTransitionError::Invalid { from, to } => {
                let mut m = "invalid transition: ".to_owned();
                m.append(from.as_str());
                m.append(" -> ");
                m.append(to.as_str());
                m
            },
            StateTransitionError::TerminalState(s) => {
                let mut m = "cannot transition from terminal state: ".to_owned();
                m.append(s.as_str());
                m
            },
        }
    }
}

/// The allowed-transition table: the single source of truth for which
/// state changes the checked transition accepts.
pub open spec fn transition_allowed(from: SystemState, to: SystemState) -> bool {
    match (from, to) {
        (SystemState::Idle, SystemState::Armed) => true,
        (SystemState::Armed, SystemState::Scanning) => true,
        (SystemState::Scanning, SystemState::TargetSelected) => true,
        (SystemState::TargetSelected, SystemState::Tracking) => true,
        (SystemState::TargetSelected, SystemState::TrackingDegraded) => true,
        (SystemState::Tracking, SystemState::TrackingDegraded) => true,
        (SystemState::TrackingDegraded, SystemState::Tracking) => true,
        (SystemState::Tracking, SystemState::Lost) => true,
        (SystemState::TrackingDegraded, SystemState::Lost) => true,
        (SystemState::Lost, SystemState::Tracking) => true,
        (SystemState::Lost, SystemState::Rth) => true,
        (SystemState::Rth, SystemState::Idle) => true,
        (SystemState::Scanning, SystemState::Idle) => true,
        (SystemState::Tracking, SystemState::Scanning) => true,
        (SystemState::TrackingDegraded, SystemState::Scanning) => true,
        (SystemState::Lost, SystemState::Scanning) => true,
        (SystemState::TargetSelected, SystemState::Scanning) => true,
        (_, SystemState::Abort) => true,
        (SystemState::Abort, SystemState::Idle) => true,
        _ => false,
    }
}

/// Returns whether the table allows a change from `from` to `to`.
pub fn is_transition_allowed(from: SystemState, to: SystemState) -> (b: bool)
    ensures
        b == transition_allowed(from, to),
{
    match (from, to) {
        (SystemState::Idle, SystemState::Armed) => true,
        (SystemState::Armed, SystemState::Scanning) => true,
        (SystemState::Scanning, SystemState::TargetSelected) => true,
        (SystemState::TargetSelected, SystemState::Tracking) => true,
        (SystemState::TargetSelected, SystemState::TrackingDegraded) => true,
        (SystemState::Tracking, SystemState::TrackingDegraded) => true,
        (SystemState::TrackingDegraded, SystemState::Tracking) => true,
        (SystemState::Tracking, SystemState::Lost) => true,
        (SystemState::TrackingDegraded, SystemState::Lost) => true,
        (SystemState::Lost, SystemState::Tracking) => true,
        (SystemState::Lost, SystemState::Rth) => true,
        (SystemState::Rth, SystemState::Idle) => true,
        (SystemState::Scanning, SystemState::Idle) => true,
        (SystemState::Tracking, SystemState::Scanning) => true,
        (SystemState::TrackingDegraded, SystemState::Scanning) => true,
        (SystemState::Lost, SystemState::Scanning) => true,
        (SystemState::TargetSelected, SystemState::Scanning) => true,
        (_, SystemState::Abort) => true,
        (SystemState::Abort, SystemState::Idle) => true,
        _ => false,
    }
}

/// Pure state machine: the current state and the number of state changes
/// made since construction.
#[derive(Debug, Clone, Copy)]
pub struct StateMachine {
    state: SystemState,
    transition_count: u64,
}

/// What a checked transition request does to `(state, count)`.
pub open spec fn checked_step(state: SystemState, count: int, to: SystemState)
    -> (SystemState, int, bool)
{
    if state == to {
        (state, count, true)
    } else if transition_allowed(state, to) {
        (to, count + 1, true)
    } else {
        (state, count, false)
    }
}

impl StateMachine {
    pub closed spec fn spec_state(&self) -> SystemState {
        self.state
    }

    pub closed spec fn spec_count(&self) -> u64 {
        self.transition_count
    }

    pub fn new(initial: SystemState) -> (sm: Self)
        ensures
            sm.spec_state() == initial,
            sm.spec_count() == 0,
    {
        StateMachine { state: initial, transition_count: 0 }
    }

    pub fn state(&self) -> (s: SystemState)
        ensures
            s == self.spec_state(),
    {
        self.state
    }

    pub fn transition_count(&self) -> (n: u64)
        ensures
            n == self.spec_count(),
    {
        self.transition_count
    }

    /// Checked transition: a request for the current state is a no-op that
    /// succeeds; a change the table allows is made and counted; any other
    /// request is refused with `Invalid` and changes nothing.
    pub fn try_transition(&mut self, to: SystemState) -> (r: Result<(), StateTransitionError>)
        requires
            old(self).spec_state() != to && transition_allowed(old(self).spec_state(), to)
                ==> old(self).spec_count() < u64::MAX,
        ensures
            old(self).spec_state() == to ==> {
                &&& r is Ok
                &&& final(self).spec_state() == to
                &&& final(self).spec_count() == old(self).spec_count()
            },
            old(self).spec_state() != to && transition_allowed(old(self).spec_state(), to) ==> {
                &&& r is Ok
                &&& final(self).spec_state() == to
                &&& final(self).spec_count() == old(self).spec_count() + 1
            },
            old(self).spec_state() != to && !transition_allowed(old(self).spec_state(), to) ==> {
                &&& r == Err::<(), StateTransitionError>(
                    StateTransitionError::Invalid { from: old(self).spec_state(), to },
                )
                &&& final(self).spec_state() == old(self).spec_state()
                &&& final(self).spec_count() == old(self).spec_count()
                &&& *final(self) == *old(self)
            },
            old(self).spec_state() == to ==> *final(self) == *old(self),
    {
        if self.state == to {
            return Ok(());
        }
        if !is_transition_allowed(self.state, to) {
            return Err(StateTransitionError::Invalid { from: self.state, to });
        }
        self.state = to;
        self.transition_count = self.transition_count + 1;
        Ok(())
    }

    /// Forced transition: bypasses the table (safety overrides such as an
    /// operator or watchdog ABORT). A request for the current state is a
    /// no-op; any other is made and counted.
    pub fn force_transition(&mut self, to: SystemState)
        requires
            old(self).spec_state() != to ==> old(self).spec_count() < u64::MAX,
        ensures
            final(self).spec_state() == to,
            final(self).spec_count() == if old(self).spec_state() == to {
                old(self).spec_count() as int
            } else {
                old(self).spec_count() + 1
            },
    {
        if self.state == to {
            return;
        }
        self.state = to;
        self.transition_count = self.transition_count + 1;
    }
}

impl Default for StateMachine {
    fn default() -> (sm: Self)
        ensures
            sm.spec_state() == SystemState::Idle,
            sm.spec_count() == 0,
    {
        StateMachine::new(SystemState::Idle)
    }
}

/// ABORT can be entered from every state: the safety override is never
/// refused by the table.
pub proof fn abort_reachable_from_every_state(s: SystemState)
    ensures
        transition_allowed(s, SystemState::Abort),
{
}

/// ABORT leads nowhere but back to IDLE (besides staying in ABORT).
pub proof fn abort_only_exits_to_idle(t: SystemState)
    ensures
        transition_allowed(SystemState::Abort, t) <==> (t == SystemState::Idle
            || t == SystemState::Abort),
{
}

/// From every state the operator can get back to IDLE in at most two
/// allowed steps (through ABORT).
pub proof fn idle_reachable_from_every_state(s: SystemState)
    ensures
        transition_allowed(s, SystemState::Abort),
        transition_allowed(SystemState::Abort, SystemState::Idle),
{
}

/// The table only lets IDLE be left towards ARMED (or the ABORT override):
/// nothing skips arming.
pub proof fn idle_only_leads_to_armed(t: SystemState)
    requires
        transition_allowed(SystemState::Idle, t),
    ensures
        t == SystemState::Armed || t == SystemState::Abort,
{
}

/// TRACKING can only be entered from TARGET_SELECTED, TRACKING_DEGRADED or
/// LOST: a target must have been selected before the vehicle tracks it.
pub proof fn tracking_entered_only_after_selection(s: SystemState)
    requires
        transition_allowed(s, SystemState::Tracking),
    ensures
        s == SystemState::TargetSelected || s == SystemState::TrackingDegraded
            || s == SystemState::Lost,
{
}

/// The `(state, count)` that a run of checked requests reaches.
pub open spec fn run_requests(state: SystemState, count: int, reqs: Seq<SystemState>)
    -> (SystemState, int)
    decreases reqs.len(),
{
    if reqs.len() == 0 {
        (state, count)
    } else {
        let step = checked_step(state, count, reqs[0]);
        run_requests(step.0, step.1, reqs.subrange(1, reqs.len() as int))
    }
}

/// Over any run of checked requests the transition count grows by at least
/// zero and at most the number of requests made.
pub proof fn run_requests_counts_at_most_requests(
    state: SystemState,
    count: int,
    reqs: Seq<SystemState>,
)
    ensures
        count <= run_requests(state, count, reqs).1 <= count + reqs.len(),
    decreases reqs.len(),
{
    if reqs.len() > 0 {
        let step = checked_step(state, count, reqs[0]);
        run_requests_counts_at_most_requests(step.0, step.1, reqs.subrange(1, reqs.len() as int));
    }
}

/// The table, read by target state: the states each state can be entered
/// from. IDLE from RTH, SCANNING and ABORT; ARMED from IDLE; SCANNING from
/// ARMED, TARGET_SELECTED, TRACKING, TRACKING_DEGRADED and LOST;
/// TARGET_SELECTED from SCANNING; TRACKING from TARGET_SELECTED,
/// TRACKING_DEGRADED and LOST; TRACKING_DEGRADED from TARGET_SELECTED and
/// TRACKING; LOST from TRACKING and TRACKING_DEGRADED; RTH from LOST; ABORT
/// from every state.
pub proof fn states_are_entered_only_from(from: SystemState, to: SystemState)
    ensures
        transition_allowed(from, to) <==> match to {
            SystemState::Idle => from == SystemState::Rth || from == SystemState::Scanning || from
                == SystemState::Abort,
            SystemState::Armed => from == SystemState::Idle,
            SystemState::Scanning => from == SystemState::Armed || from
                == SystemState::TargetSelected || from == SystemState::Tracking || from
                == SystemState::TrackingDegraded || from == SystemState::Lost,
            SystemState::TargetSelected => from == SystemState::Scanning,
            SystemState::Tracking => from == SystemState::TargetSelected || from
                == SystemState::TrackingDegraded || from == SystemState::Lost,
            SystemState::TrackingDegraded => from == SystemState::TargetSelected || from
                == SystemState::Tracking,
            SystemState::Lost => from == SystemState::Tracking || from
                == SystemState::TrackingDegraded,
            SystemState::Rth => from == SystemState::Lost,
            SystemState::Abort => true,
        },
{
}

} // verus!
