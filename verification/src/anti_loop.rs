//! Oscillation guard: the decision part of the anti-loop protection.
//!
//! For each candidate correction command the guard decides whether it is
//! sent, suppressed (inside the deadband, or during a freeze), or whether
//! the command stream oscillates: a sign change of the yaw command that
//! makes the rate of sign changes over the recent window exceed the
//! threshold freezes commands for one second and asks the commander to
//! degrade; repeated oscillations within five seconds escalate to ABORT.
//!
//! The guard reads of a command only what its decisions need: whether the
//! offset lies inside the deadband, the sign of the (clipped) yaw rate and
//! whether its magnitude exceeds the sign-change noise floor. Times are
//! nanoseconds on the guard's own monotonic clock.

use vstd::prelude::*;
use std::collections::VecDeque;
use std::time::Instant;
use crate::rate_limiter::NANOS_PER_SEC;
use crate::types::{instant_now, instant_elapsed_ns};

verus! {

/// Number of adjacent positions at which a sequence of signs changes.
pub open spec fn sign_changes(s: Seq<bool>) -> int
    decreases s.len(),
{
    if s.len() <= 1 {
        0
    } else {
        sign_changes(s.drop_last()) + if s[s.len() - 1] != s[s.len() - 2] { 1int } else { 0int }
    }
}

proof fn lemma_sign_changes_bound(s: Seq<bool>)
    ensures
        0 <= sign_changes(s),
        s.len() >= 1 ==> sign_changes(s) <= s.len() - 1,
    decreases s.len(),
{
    if s.len() > 1 {
        lemma_sign_changes_bound(s.drop_last());
    }
}

/// Counts the sign changes of `history` followed by `next`; an empty
/// history has none.
pub fn count_sign_changes(history: &VecDeque<bool>, next: bool) -> (n: usize)
    ensures
        history@.len() == 0 ==> n == 0,
        history@.len() > 0 ==> n == sign_changes(history@.push(next)),
{
    let len = history.len();
    if len == 0 {
        return 0;
    }
    let mut changes: usize = 0;
    let mut prev = history[0];
    let mut i: usize = 1;
    while i < len
        invariant
            len == history@.len(),
            1 <= i <= len,
            prev == history@[i - 1],
            changes == sign_changes(history@.take(i as int)),
            changes <= i - 1,
        decreases len - i,
    {
        let v = history[i];
        proof {
            assert(history@.take(i + 1).drop_last() =~= history@.take(i as int));
        }
        if v != prev {
            changes = changes + 1;
        }
        prev = v;
        i = i + 1;
    }
    proof {
        assert(history@.take(len as int) =~= history@);
        assert(history@.push(next).drop_last() =~= history@);
    }
    if next != prev {
        changes = changes + 1;
    }
    changes
}

proof fn lemma_product_fits(a: int, b: int)
    by (nonlinear_arith)
    requires
        0 <= a <= u64::MAX,
        0 <= b <= u64::MAX,
    ensures
        0 <= a * b <= u128::MAX,
{
}

/// Decision of the guard on one command.
#[derive(Debug, Clone, Copy, PartialEq, Eq, Structural)]
pub enum GuardVerdict {
    /// The command is sent (after clipping).
    Allow,
    /// The command is dropped (deadband, or frozen after an oscillation).
    Suppress,
    /// Oscillation detected: commands are frozen and the commander should
    /// go to TRACKING_DEGRADED.
    Degrade,
    /// Repeated oscillation: the commander should ABORT.
    Abort,
}

/// What the guard reads of one candidate command.
#[derive(Debug, Clone, Copy, PartialEq, Eq, Structural)]
pub struct GuardInput {
    /// Both offsets lie strictly inside the deadband.
    pub in_deadband: bool,
    /// The clipped yaw rate is positive.
    pub yaw_positive: bool,
    /// The clipped yaw rate's magnitude exceeds the sign-change noise floor.
    pub yaw_significant: bool,
}

/// Configuration of the oscillation detector. The sign-change threshold is
/// the exact fraction `threshold_num / threshold_den`.
#[derive(Debug, Clone, Copy, PartialEq, Eq, Structural)]
pub struct GuardConfig {
    /// Number of recent yaw signs kept.
    pub window: usize,
    pub threshold_num: u64,
    pub threshold_den: u64,
    /// Oscillations within five seconds that escalate to ABORT.
    pub abort_count: u32,
}

/// Freeze after an oscillation, in nanoseconds.
pub const FREEZE_NS: u64 = 1_000_000_000;

/// Window over which oscillations are counted for escalation.
pub const ESCALATION_WINDOW_NS: u64 = 5_000_000_000;

/// The guard's state as a mathematical value.
pub struct GuardModel {
    pub history: Seq<bool>,
    pub frozen: bool,
    pub freeze_until: Option<u64>,
    pub triggers: Seq<u64>,
    pub suppressed: int,
    pub allowed: int,
    pub trigger_count: int,
}

/// `now - t`, or zero when `t` lies in the future.
pub open spec fn since(now: u64, t: u64) -> int {
    if now >= t { now - t } else { 0 }
}

/// The trigger times among `ts` that lie less than five seconds before `now`.
pub open spec fn recent_triggers(ts: Seq<u64>, now: u64) -> Seq<u64>
    decreases ts.len(),
{
    if ts.len() == 0 {
        Seq::empty()
    } else {
        let p = recent_triggers(ts.drop_last(), now);
        if since(now, ts.last()) < ESCALATION_WINDOW_NS {
            p.push(ts.last())
        } else {
            p
        }
    }
}

proof fn lemma_recent_len(ts: Seq<u64>, now: u64)
    ensures
        recent_triggers(ts, now).len() <= ts.len(),
    decreases ts.len(),
{
    if ts.len() > 0 {
        lemma_recent_len(ts.drop_last(), now);
    }
}

/// History after appending a sign, keeping at most `window` entries.
pub open spec fn push_window(h: Seq<bool>, sign: bool, window: usize) -> Seq<bool> {
    let p = h.push(sign);
    if p.len() > window {
        p.subrange(1, p.len() as int)
    } else {
        p
    }
}

/// Whether appending `sign` to a nonempty history is an oscillation.
pub open spec fn oscillates(cfg: GuardConfig, h: Seq<bool>, input: GuardInput) -> bool {
    &&& h.len() > 0
    &&& h.last() != input.yaw_positive
    &&& input.yaw_significant
    &&& sign_changes(h.push(input.yaw_positive)) * cfg.threshold_den > cfg.threshold_num
        * h.len()
}

/// One step of the guard at time `now`.
pub open spec fn guard_step(cfg: GuardConfig, m: GuardModel, now: u64, input: GuardInput) -> (
    GuardModel,
    GuardVerdict,
) {
    let frozen_now = match m.freeze_until {
        Some(until) => now < until,
        None => false,
    };
    if frozen_now {
        (GuardModel { suppressed: m.suppressed + 1, ..m }, GuardVerdict::Suppress)
    } else {
        let m1 = if m.freeze_until is Some {
            GuardModel { frozen: false, freeze_until: None, ..m }
        } else {
            m
        };
        if input.in_deadband {
            (GuardModel { suppressed: m1.suppressed + 1, ..m1 }, GuardVerdict::Suppress)
        } else if oscillates(cfg, m1.history, input) {
            let triggers = recent_triggers(m1.triggers, now).push(now);
            let m2 = GuardModel {
                history: Seq::empty(),
                frozen: true,
                freeze_until: Some((now + FREEZE_NS) as u64),
                triggers,
                trigger_count: m1.trigger_count + 1,
                ..m1
            };
            if triggers.len() >= cfg.abort_count {
                (m2, GuardVerdict::Abort)
            } else {
                (m2, GuardVerdict::Degrade)
            }
        } else {
            (
                GuardModel {
                    history: push_window(m1.history, input.yaw_positive, cfg.window),
                    allowed: m1.allowed + 1,
                    ..m1
                },
                GuardVerdict::Allow,
            )
        }
    }
}

/// Counters of the guard, for health reporting.
#[derive(Debug, Clone, Copy, PartialEq, Eq, Structural)]
pub struct AntiLoopSnapshot {
    pub frozen: bool,
    pub suppressed_count: u64,
    pub allowed_count: u64,
    pub oscillation_trigger_count: u64,
    pub history_len: u32,
}

/// The oscillation guard.
pub struct OscillationGuard {
    config: GuardConfig,
    origin: Instant,
    history: VecDeque<bool>,
    frozen: bool,
    freeze_until_ns: Option<u64>,
    recent_triggers: Vec<u64>,
    suppressed_count: u64,
    allowed_count: u64,
    oscillation_trigger_count: u64,
}

impl OscillationGuard {
    pub closed spec fn spec_config(&self) -> GuardConfig {
        self.config
    }

    pub closed spec fn model(&self) -> GuardModel {
        GuardModel {
            history: self.history@,
            frozen: self.frozen,
            freeze_until: self.freeze_until_ns,
            triggers: self.recent_triggers@,
            suppressed: self.suppressed_count as int,
            allowed: self.allowed_count as int,
            trigger_count: self.oscillation_trigger_count as int,
        }
    }

    /// True when every counter can still be incremented.
    pub open spec fn counters_below_max(&self) -> bool {
        &&& self.model().suppressed < u64::MAX
        &&& self.model().allowed < u64::MAX
        &&& self.model().trigger_count < u64::MAX
    }

    pub fn new(config: GuardConfig) -> (g: Self)
        ensures
            g.spec_config() == config,
            g.model().history.len() == 0,
            !g.model().frozen,
            g.model().freeze_until is None,
            g.model().triggers.len() == 0,
            g.model().suppressed == 0,
            g.model().allowed == 0,
            g.model().trigger_count == 0,
            g.model() == fresh_guard_model(),
    {
        let g = OscillationGuard {
            config,
            origin: instant_now(),
            history: VecDeque::new(),
            frozen: false,
            freeze_until_ns: None,
            recent_triggers: Vec::new(),
            suppressed_count: 0,
            allowed_count: 0,
            oscillation_trigger_count: 0,
        };
        proof {
            assert(g.model().history =~= Seq::empty());
            assert(g.model().triggers =~= Seq::empty());
        }
        g
    }

    fn prune_triggers(&mut self, now_ns: u64)
        ensures
            final(self).recent_triggers@ == recent_triggers(old(self).recent_triggers@, now_ns),
            final(self).config == old(self).config,
            final(self).history@ == old(self).history@,
            final(self).frozen == old(self).frozen,
            final(self).freeze_until_ns == old(self).freeze_until_ns,
            final(self).suppressed_count == old(self).suppressed_count,
            final(self).allowed_count == old(self).allowed_count,
            final(self).oscillation_trigger_count == old(self).oscillation_trigger_count,
    {
        let mut kept: Vec<u64> = Vec::new();
        let n = self.recent_triggers.len();
        let mut i: usize = 0;
        while i < n
            invariant
                n == self.recent_triggers@.len(),
                i <= n,
                kept@ == recent_triggers(self.recent_triggers@.take(i as int), now_ns),
            decreases n - i,
        {
            let t = self.recent_triggers[i];
            proof {
                assert(self.recent_triggers@.take(i + 1).drop_last() =~= self.recent_triggers@.take(
                    i as int,
                ));
            }
            let age = if now_ns >= t { now_ns - t } else { 0 };
            if age < ESCALATION_WINDOW_NS {
                kept.push(t);
            }
            i = i + 1;
        }
        proof {
            assert(self.recent_triggers@.take(n as int) =~= self.recent_triggers@);
        }
        self.recent_triggers = kept;
    }

    /// Decides on one command at time `now_ns`; see `guard_step`.
    pub fn process_at(&mut self, now_ns: u64, input: GuardInput) -> (v: GuardVerdict)
        requires
            old(self).counters_below_max(),
            now_ns <= u64::MAX - FREEZE_NS,
            old(self).spec_config().threshold_den > 0,
        ensures
            (final(self).model(), v) == guard_step(
                old(self).spec_config(),
                old(self).model(),
                now_ns,
                input,
            ),
            final(self).spec_config() == old(self).spec_config(),
    {
        let frozen_now = match self.freeze_until_ns {
            Some(until) => now_ns < until,
            None => false,
        };
        if frozen_now {
            self.suppressed_count = self.suppressed_count + 1;
            return GuardVerdict::Suppress;
        }
        if self.freeze_until_ns.is_some() {
            self.frozen = false;
            self.freeze_until_ns = None;
        }
        if input.in_deadband {
            self.suppressed_count = self.suppressed_count + 1;
            return GuardVerdict::Suppress;
        }
        let len = self.history.len();
        if len > 0 {
            let prev = self.history[len - 1];
            if prev != input.yaw_positive && input.yaw_significant {
                let changes = count_sign_changes(&self.history, input.yaw_positive);
                proof {
                    lemma_product_fits(changes as int, self.config.threshold_den as int);
                    lemma_product_fits(self.config.threshold_num as int, len as int);
                }
                let lhs: u128 = (changes as u128) * (self.config.threshold_den as u128);
                let rhs: u128 = (self.config.threshold_num as u128) * (len as u128);
                if lhs > rhs {
                    return self.handle_oscillation(now_ns);
                }
            }
        }
        self.history.push_back(input.yaw_positive);
        if self.history.len() > self.config.window {
            self.history.pop_front();
        }
        self.allowed_count = self.allowed_count + 1;
        GuardVerdict::Allow
    }

    fn handle_oscillation(&mut self, now_ns: u64) -> (v: GuardVerdict)
        requires
            old(self).oscillation_trigger_count < u64::MAX,
            now_ns <= u64::MAX - FREEZE_NS,
        ensures
            final(self).config == old(self).config,
            final(self).history@ == Seq::<bool>::empty(),
            final(self).frozen,
            final(self).freeze_until_ns == Some((now_ns + FREEZE_NS) as u64),
            final(self).recent_triggers@ == recent_triggers(old(self).recent_triggers@, now_ns).push(
                now_ns,
            ),
            final(self).oscillation_trigger_count == old(self).oscillation_trigger_count + 1,
            final(self).suppressed_count == old(self).suppressed_count,
            final(self).allowed_count == old(self).allowed_count,
            v == if final(self).recent_triggers@.len() >= old(self).config.abort_count {
                GuardVerdict::Abort
            } else {
                GuardVerdict::Degrade
            },
    {
        self.oscillation_trigger_count = self.oscillation_trigger_count + 1;
        self.prune_triggers(now_ns);
        self.recent_triggers.push(now_ns);
        self.frozen = true;
        self.freeze_until_ns = Some(now_ns + FREEZE_NS);
        self.history.clear();
        if self.recent_triggers.len() as u64 >= self.config.abort_count as u64 {
            GuardVerdict::Abort
        } else {
            GuardVerdict::Degrade
        }
    }

    /// Decides on one command now (guard clock).
    pub fn process(&mut self, input: GuardInput) -> (v: GuardVerdict)
        requires
            old(self).counters_below_max(),
            old(self).spec_config().threshold_den > 0,
        ensures
            final(self).spec_config() == old(self).spec_config(),
            exists|now: u64| (final(self).model(), v) == guard_step(
                old(self).spec_config(),
                old(self).model(),
                now,
                input,
            ),
    {
        let mut now = instant_elapsed_ns(&self.origin);
        if now > u64::MAX - FREEZE_NS {
            now = u64::MAX - FREEZE_NS;
        }
        self.process_at(now, input)
    }

    /// The guard's counters.
    pub fn snapshot(&self) -> (s: AntiLoopSnapshot)
        ensures
            s.frozen == self.model().frozen,
            s.suppressed_count == self.model().suppressed,
            s.allowed_count == self.model().allowed,
            s.oscillation_trigger_count == self.model().trigger_count,
            s.history_len == self.model().history.len() as u32,
    {
        AntiLoopSnapshot {
            frozen: self.frozen,
            suppressed_count: self.suppressed_count,
            allowed_count: self.allowed_count,
            oscillation_trigger_count: self.oscillation_trigger_count,
            history_len: self.history.len() as u32,
        }
    }
}

/// While frozen after an oscillation, every command is suppressed.
pub proof fn frozen_commands_are_suppressed(cfg: GuardConfig, m: GuardModel, now: u64, input: GuardInput)
    requires
        m.freeze_until matches Some(until) && now < until,
    ensures
        guard_step(cfg, m, now, input).1 == GuardVerdict::Suppress,
{
}

/// A command whose offset lies inside the deadband is never sent.
pub proof fn deadband_commands_are_never_sent(cfg: GuardConfig, m: GuardModel, now: u64, input: GuardInput)
    requires
        input.in_deadband,
    ensures
        guard_step(cfg, m, now, input).1 == GuardVerdict::Suppress,
{
}

/// Commands that keep the yaw direction of the last allowed command never
/// trigger the oscillation detector.
pub proof fn steady_direction_never_oscillates(cfg: GuardConfig, m: GuardModel, now: u64, input: GuardInput)
    requires
        m.history.len() == 0 || m.history.last() == input.yaw_positive,
    ensures
        guard_step(cfg, m, now, input).1 == GuardVerdict::Allow || guard_step(cfg, m, now, input).1
            == GuardVerdict::Suppress,
{
}

/// After an oscillation (Degrade or Abort) commands are frozen for one
/// second and the sign history starts afresh.
pub proof fn oscillation_freezes_for_one_second(cfg: GuardConfig, m: GuardModel, now: u64, input: GuardInput)
    requires
        now <= u64::MAX - FREEZE_NS,
        guard_step(cfg, m, now, input).1 == GuardVerdict::Degrade || guard_step(cfg, m, now, input).1
            == GuardVerdict::Abort,
    ensures
        guard_step(cfg, m, now, input).0.freeze_until == Some((now + FREEZE_NS) as u64),
        guard_step(cfg, m, now, input).0.frozen,
        guard_step(cfg, m, now, input).0.history.len() == 0,
{
}

/// Escalation to ABORT happens only when at least the configured number of
/// oscillations fell within the last five seconds.
pub proof fn abort_needs_repeated_oscillation(cfg: GuardConfig, m: GuardModel, now: u64, input: GuardInput)
    requires
        guard_step(cfg, m, now, input).1 == GuardVerdict::Abort,
    ensures
        guard_step(cfg, m, now, input).0.triggers.len() >= cfg.abort_count,
        forall|k: int|
            0 <= k < guard_step(cfg, m, now, input).0.triggers.len() ==> since(
                now,
                #[trigger] guard_step(cfg, m, now, input).0.triggers[k],
            ) < ESCALATION_WINDOW_NS,
{
    lemma_recent_all_recent(m.triggers, now);
}

proof fn lemma_recent_all_recent(ts: Seq<u64>, now: u64)
    ensures
        forall|k: int| 0 <= k < recent_triggers(ts, now).len() ==> since(now, #[trigger] recent_triggers(ts, now)[k])
            < ESCALATION_WINDOW_NS,
    decreases ts.len(),
{
    if ts.len() > 0 {
        let p = recent_triggers(ts.drop_last(), now);
        lemma_recent_all_recent(ts.drop_last(), now);
        if since(now, ts.last()) < ESCALATION_WINDOW_NS {
            assert forall|k: int| 0 <= k < p.push(ts.last()).len() implies since(
                now,
                #[trigger] p.push(ts.last())[k],
            ) < ESCALATION_WINDOW_NS by {
                if k < p.len() {
                    assert(p.push(ts.last())[k] == p[k]);
                }
            }
        }
    }
}

/// The sign history never grows beyond the window.
pub proof fn history_stays_within_window(cfg: GuardConfig, m: GuardModel, now: u64, input: GuardInput)
    requires
        m.history.len() <= cfg.window,
    ensures
        guard_step(cfg, m, now, input).0.history.len() <= cfg.window,
{
}

/// Every command is accounted for exactly once: as suppressed, as allowed,
/// or as an oscillation trigger.
pub proof fn every_command_is_counted_once(cfg: GuardConfig, m: GuardModel, now: u64, input: GuardInput)
    ensures
        ({
            let n = guard_step(cfg, m, now, input).0;
            n.suppressed + n.allowed + n.trigger_count == m.suppressed + m.allowed + m.trigger_count + 1
        }),
{
}

/// The guard as `new` leaves it: no history, not frozen, no triggers and
/// all counters at zero.
pub open spec fn fresh_guard_model() -> GuardModel {
    GuardModel {
        history: Seq::empty(),
        frozen: false,
        freeze_until: None,
        triggers: Seq::empty(),
        suppressed: 0,
        allowed: 0,
        trigger_count: 0,
    }
}

/// The guard after a run of commands, each with the time it was
/// processed at, and the verdicts it gave, in order.
pub open spec fn guard_run(cfg: GuardConfig, m: GuardModel, steps: Seq<(u64, GuardInput)>) -> (
    GuardModel,
    Seq<GuardVerdict>,
)
    decreases steps.len(),
{
    if steps.len() == 0 {
        (m, Seq::empty())
    } else {
        let (m1, vs) = guard_run(cfg, m, steps.drop_last());
        let (m2, v) = guard_step(cfg, m1, steps.last().0, steps.last().1);
        (m2, vs.push(v))
    }
}

/// How many of the verdicts are `v`.
pub open spec fn verdict_count(vs: Seq<GuardVerdict>, v: GuardVerdict) -> int
    decreases vs.len(),
{
    if vs.len() == 0 {
        0
    } else {
        verdict_count(vs.drop_last(), v) + if vs.last() == v { 1int } else { 0int }
    }
}

proof fn lemma_guard_run_counts(cfg: GuardConfig, m: GuardModel, steps: Seq<(u64, GuardInput)>)
    requires
        m.history.len() <= cfg.window,
    ensures
        ({
            let (m2, vs) = guard_run(cfg, m, steps);
            &&& vs.len() == steps.len()
            &&& m2.allowed == m.allowed + verdict_count(vs, GuardVerdict::Allow)
            &&& m2.suppressed == m.suppressed + verdict_count(vs, GuardVerdict::Suppress)
            &&& m2.trigger_count == m.trigger_count + verdict_count(vs, GuardVerdict::Degrade)
                + verdict_count(vs, GuardVerdict::Abort)
            &&& m2.history.len() <= cfg.window
        }),
    decreases steps.len(),
{
    if steps.len() > 0 {
        lemma_guard_run_counts(cfg, m, steps.drop_last());
        let (m1, vs) = guard_run(cfg, m, steps.drop_last());
        history_stays_within_window(cfg, m1, steps.last().0, steps.last().1);
        let (m2, v) = guard_step(cfg, m1, steps.last().0, steps.last().1);
        assert(vs.push(v).drop_last() =~= vs);
    }
}

/// Over any run of commands on a fresh guard, every command is counted
/// once: the allowed count is the number of Allow verdicts, the suppressed
/// count the number of Suppress verdicts, the oscillation count the number
/// of Degrade and Abort verdicts, together as many as there were commands;
/// and the sign history never holds more than the window.
pub proof fn guard_counts_over_a_run(cfg: GuardConfig, steps: Seq<(u64, GuardInput)>)
    ensures
        ({
            let (m, vs) = guard_run(cfg, fresh_guard_model(), steps);
            &&& vs.len() == steps.len()
            &&& m.allowed == verdict_count(vs, GuardVerdict::Allow)
            &&& m.suppressed == verdict_count(vs, GuardVerdict::Suppress)
            &&& m.trigger_count == verdict_count(vs, GuardVerdict::Degrade) + verdict_count(
                vs,
                GuardVerdict::Abort,
            )
            &&& m.suppressed + m.allowed + m.trigger_count == steps.len()
            &&& m.history.len() <= cfg.window
        }),
{
    lemma_guard_run_counts(cfg, fresh_guard_model(), steps);
    lemma_verdict_counts_sum(guard_run(cfg, fresh_guard_model(), steps).1);
}

proof fn lemma_verdict_counts_sum(vs: Seq<GuardVerdict>)
    ensures
        verdict_count(vs, GuardVerdict::Allow) + verdict_count(vs, GuardVerdict::Suppress)
            + verdict_count(vs, GuardVerdict::Degrade) + verdict_count(vs, GuardVerdict::Abort)
            == vs.len(),
    decreases vs.len(),
{
    if vs.len() > 0 {
        lemma_verdict_counts_sum(vs.drop_last());
    }
}

/// Whether a trigger at `t` lies less than five seconds before `now`.
pub open spec fn within_five_seconds(now: u64, t: u64) -> bool {
    since(now, t) < 5_000_000_000
}

/// The guard keeps exactly the earlier triggers that lie less than five
/// seconds before `now`, in order: none that recent is forgotten and none
/// older is kept.
pub proof fn recent_triggers_are_the_last_five_seconds(ts: Seq<u64>, now: u64)
    ensures
        recent_triggers(ts, now) == ts.filter(|t: u64| within_five_seconds(now, t)),
    decreases ts.len(),
{
    reveal(Seq::filter);
    if ts.len() > 0 {
        recent_triggers_are_the_last_five_seconds(ts.drop_last(), now);
    }
}

/// An oscillation detected on an unfrozen guard escalates to ABORT exactly
/// when, counting itself, at least `abort_count` oscillations fell within
/// the last five seconds; otherwise it degrades.
pub proof fn recent_oscillations_escalate(cfg: GuardConfig, m: GuardModel, now: u64, input: GuardInput)
    requires
        !(m.freeze_until matches Some(until) && now < until),
        !input.in_deadband,
        oscillates(cfg, m.history, input),
    ensures
        guard_step(cfg, m, now, input).1 == if m.triggers.filter(
            |t: u64| within_five_seconds(now, t),
        ).len() + 1 >= cfg.abort_count {
            GuardVerdict::Abort
        } else {
            GuardVerdict::Degrade
        },
{
    recent_triggers_are_the_last_five_seconds(m.triggers, now);
}

} // verus!
