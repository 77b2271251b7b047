//! Rate limiter for flight-controller commands: at most one command per
//! minimum interval gets through; excess commands are dropped, not queued.
//!
//! Times are nanoseconds on the limiter's own monotonic clock, which starts
//! when the limiter is created.

use vstd::prelude::*;
use std::time::Instant;
use crate::types::{instant_now, instant_elapsed_ns};

verus! {

/// Nanoseconds in a second.
pub const NANOS_PER_SEC: u64 = 1_000_000_000;

/// The minimum interval between commands at `rate_hz` commands per second:
/// one second divided by the rate, rounded to the nearest nanosecond.
pub open spec fn min_interval_for(rate_hz: u32) -> int {
    (2 * NANOS_PER_SEC + rate_hz) / (2 * rate_hz as int)
}

pub struct CommandRateLimiter {
    origin: Instant,
    min_interval_ns: u64,
    last_sent_ns: Option<u64>,
    dropped_count: u64,
    sent_count: u64,
}

/// Whether a command at `now` passes, given when the last one passed.
pub open spec fn send_allowed(last: Option<u64>, now: u64, min_interval: u64) -> bool {
    match last {
        None => true,
        Some(t) => (if now >= t { now - t } else { 0 }) >= min_interval,
    }
}

impl CommandRateLimiter {
    pub closed spec fn spec_min_interval(&self) -> u64 {
        self.min_interval_ns
    }

    pub closed spec fn spec_last_sent(&self) -> Option<u64> {
        self.last_sent_ns
    }

    pub closed spec fn spec_sent(&self) -> u64 {
        self.sent_count
    }

    pub closed spec fn spec_dropped(&self) -> u64 {
        self.dropped_count
    }

    /// A limiter that lets at most `rate_hz` commands per second through.
    pub fn new(rate_hz: u32) -> (r: Self)
        requires
            rate_hz > 0,
        ensures
            r.spec_min_interval() == min_interval_for(rate_hz),
            r.spec_last_sent() is None,
            r.spec_sent() == 0,
            r.spec_dropped() == 0,
    {
        let rate = rate_hz as u64;
        let interval = (2 * NANOS_PER_SEC + rate) / (2 * rate);
        CommandRateLimiter {
            origin: instant_now(),
            min_interval_ns: interval,
            last_sent_ns: None,
            dropped_count: 0,
            sent_count: 0,
        }
    }

    /// Decides whether a command at time `now_ns` may be sent. The first
    /// command always passes; a later one passes when at least the minimum
    /// interval has elapsed since the last one that passed (a clock that
    /// went backwards counts as no time elapsed). A passing command is
    /// counted as sent and becomes the last one; any other is counted as
    /// dropped.
    pub fn try_send_at(&mut self, now_ns: u64) -> (ok: bool)
        requires
            old(self).spec_sent() < u64::MAX,
            old(self).spec_dropped() < u64::MAX,
        ensures
            ok == send_allowed(old(self).spec_last_sent(), now_ns, old(self).spec_min_interval()),
            final(self).spec_min_interval() == old(self).spec_min_interval(),
            ok ==> {
                &&& final(self).spec_last_sent() == Some(now_ns)
                &&& final(self).spec_sent() == old(self).spec_sent() + 1
                &&& final(self).spec_dropped() == old(self).spec_dropped()
            },
            !ok ==> {
                &&& final(self).spec_last_sent() == old(self).spec_last_sent()
                &&& final(self).spec_sent() == old(self).spec_sent()
                &&& final(self).spec_dropped() == old(self).spec_dropped() + 1
            },
    {
        let allowed = match self.last_sent_ns {
            None => true,
            Some(last) => {
                let elapsed = if now_ns >= last { now_ns - last } else { 0 };
                elapsed >= self.min_interval_ns
            },
        };
        if allowed {
            self.last_sent_ns = Some(now_ns);
            self.sent_count = self.sent_count + 1;
            true
        } else {
            self.dropped_count = self.dropped_count + 1;
            false
        }
    }

    /// Decides whether a command may be sent now (limiter clock).
    pub fn try_send(&mut self) -> (ok: bool)
        requires
            old(self).spec_sent() < u64::MAX,
            old(self).spec_dropped() < u64::MAX,
        ensures
            final(self).spec_min_interval() == old(self).spec_min_interval(),
            final(self).spec_sent() + final(self).spec_dropped() == old(self).spec_sent() + old(
                self,
            ).spec_dropped() + 1,
            ok ==> final(self).spec_sent() == old(self).spec_sent() + 1,
            !ok ==> final(self).spec_dropped() == old(self).spec_dropped() + 1,
            !ok ==> old(self).spec_last_sent() is Some,
    {
        let now = instant_elapsed_ns(&self.origin);
        self.try_send_at(now)
    }

    /// Sends regardless of the limit (safety-critical commands such as
    /// ABORT): the command at `now_ns` is counted as sent and becomes the
    /// last one.
    pub fn force_send_at(&mut self, now_ns: u64)
        requires
            old(self).spec_sent() < u64::MAX,
        ensures
            final(self).spec_min_interval() == old(self).spec_min_interval(),
            final(self).spec_last_sent() == Some(now_ns),
            final(self).spec_sent() == old(self).spec_sent() + 1,
            final(self).spec_dropped() == old(self).spec_dropped(),
    {
        self.last_sent_ns = Some(now_ns);
        self.sent_count = self.sent_count + 1;
    }

    /// Sends now regardless of the limit.
    pub fn force_send(&mut self)
        requires
            old(self).spec_sent() < u64::MAX,
        ensures
            final(self).spec_min_interval() == old(self).spec_min_interval(),
            final(self).spec_last_sent() is Some,
            final(self).spec_sent() == old(self).spec_sent() + 1,
            final(self).spec_dropped() == old(self).spec_dropped(),
    {
        let now = instant_elapsed_ns(&self.origin);
        self.force_send_at(now);
    }

    pub fn sent_count(&self) -> (n: u64)
        ensures
            n == self.spec_sent(),
    {
        self.sent_count
    }

    pub fn dropped_count(&self) -> (n: u64)
        ensures
            n == self.spec_dropped(),
    {
        self.dropped_count
    }

    /// The minimum interval between passing commands, in nanoseconds.
    pub fn min_interval_ns(&self) -> (n: u64)
        ensures
            n == self.spec_min_interval(),
    {
        self.min_interval_ns
    }
}

/// Two commands that both pass the limiter (with none forced in between)
/// are at least the minimum interval apart on a clock that does not run
/// backwards.
pub proof fn passing_commands_are_spaced(first: u64, second: u64, min_interval: u64)
    requires
        first <= second,
        send_allowed(Some(first), second, min_interval),
    ensures
        second - first >= min_interval,
{
}

/// The times among `times` at which a command passes a limiter whose last
/// passing command was at `last`, when commands arrive at those times in
/// order and none is forced.
pub open spec fn passed_times(last: Option<u64>, times: Seq<u64>, min_interval: u64) -> Seq<u64>
    decreases times.len(),
{
    if times.len() == 0 {
        Seq::empty()
    } else {
        let p = passed_times(last, times.drop_last(), min_interval);
        let prev = if p.len() > 0 {
            Some(p.last())
        } else {
            last
        };
        if send_allowed(prev, times.last(), min_interval) {
            p.push(times.last())
        } else {
            p
        }
    }
}

/// Times that never run backwards.
pub open spec fn nondecreasing(times: Seq<u64>) -> bool {
    forall|i: int, j: int| 0 <= i <= j < times.len() ==> times[i] <= times[j]
}

/// Consecutive entries at least `gap` apart.
pub open spec fn spaced(p: Seq<u64>, gap: u64) -> bool {
    forall|k: int| 0 <= k < p.len() - 1 ==> #[trigger] p[k] + gap <= p[k + 1]
}

proof fn lemma_passed_spaced(times: Seq<u64>, min_interval: u64)
    requires
        nondecreasing(times),
    ensures
        spaced(passed_times(None, times, min_interval), min_interval),
        times.len() > 0 ==> forall|k: int|
            0 <= k < passed_times(None, times, min_interval).len() ==> #[trigger] passed_times(
                None,
                times,
                min_interval,
            )[k] <= times.last(),
    decreases times.len(),
{
    if times.len() > 0 {
        let d = times.drop_last();
        assert(nondecreasing(d));
        lemma_passed_spaced(d, min_interval);
        let p = passed_times(None, d, min_interval);
        let t = times.last();
        assert forall|k: int| 0 <= k < p.len() implies #[trigger] p[k] <= t by {
            assert(d.len() > 0);
            assert(times[d.len() - 1] <= times[times.len() - 1]);
        }
        let q = passed_times(None, times, min_interval);
        if p.len() > 0 && q.len() == p.len() + 1 {
            assert(p[p.len() - 1] <= t);
            assert forall|k: int| 0 <= k < q.len() - 1 implies #[trigger] q[k] + min_interval <= q[k + 1] by {
                if k < p.len() - 1 {
                    assert(q[k] == p[k] && q[k + 1] == p[k + 1]);
                }
            }
        }
    }
}

proof fn lemma_spaced_distance(p: Seq<u64>, gap: u64, i: int, j: int)
    requires
        spaced(p, gap),
        0 <= i <= j < p.len(),
    ensures
        p[j] - p[i] >= (j - i) * gap,
    decreases j - i,
{
    if i < j {
        lemma_spaced_distance(p, gap, i, j - 1);
        assert(p[j - 1] + gap <= p[j]);
        assert((j - i) * gap == (j - 1 - i) * gap + gap) by (nonlinear_arith);
    } else {
        assert((j - i) * gap == 0) by (nonlinear_arith)
            requires
                i == j,
        ;
    }
}

/// On a clock that does not run backwards, commands that pass a fresh
/// limiter (none forced) are spaced: the `j`-th and the `i`-th passing
/// commands lie at least `j - i` minimum intervals apart. So when both lie
/// in a window of length `len`, `(j - i) * min_interval <= len`: at most
/// `len / min_interval + 1` commands pass in any such window.
pub proof fn passes_per_window(times: Seq<u64>, min_interval: u64, i: int, j: int, start: int, len: int)
    requires
        nondecreasing(times),
        0 <= i <= j < passed_times(None, times, min_interval).len(),
    ensures
        ({
            let p = passed_times(None, times, min_interval);
            &&& p[j] - p[i] >= (j - i) * min_interval
            &&& (start <= p[i] && p[j] <= start + len) ==> (j - i) * min_interval <= len
        }),
{
    lemma_passed_spaced(times, min_interval);
    lemma_spaced_distance(passed_times(None, times, min_interval), min_interval, i, j);
}

} // verus!
