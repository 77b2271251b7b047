//! Watchdog registry: each loop registers a watchdog and feeds it on every
//! iteration; a watchdog not fed within its timeout is reported as expired
//! together with the action configured for it.
//!
//! Times are wall-clock milliseconds (`now_ms`), as read from the system
//! clock by the `*_now` entry points.

use vstd::prelude::*;

verus! {

/// Identifier for a watchdog, one per supervised loop.
#[derive(Debug, Clone, Copy, PartialEq, Eq, Hash, Structural)]
pub enum WatchdogId {
    VideoLoop,
    InferenceLoop,
    TrackingLoop,
    CommandLoop,
    FcHeartbeat,
}

/// Number of distinct watchdogs.
pub const WATCHDOG_COUNT: usize = 5;

/// Position of a watchdog in the registry (and in reports).
pub open spec fn wd_index(id: WatchdogId) -> int {
    match id {
        WatchdogId::VideoLoop => 0,
        WatchdogId::InferenceLoop => 1,
        WatchdogId::TrackingLoop => 2,
        WatchdogId::CommandLoop => 3,
        WatchdogId::FcHeartbeat => 4,
    }
}

/// The watchdog at a registry position.
pub open spec fn wd_at(i: int) -> WatchdogId {
    if i == 0 {
        WatchdogId::VideoLoop
    } else if i == 1 {
        WatchdogId::InferenceLoop
    } else if i == 2 {
        WatchdogId::TrackingLoop
    } else if i == 3 {
        WatchdogId::CommandLoop
    } else {
        WatchdogId::FcHeartbeat
    }
}

/// The name under which a watchdog is logged.
pub open spec fn wd_name(id: WatchdogId) -> Seq<char> {
    match id {
        WatchdogId::VideoLoop => "video_loop"@,
        WatchdogId::InferenceLoop => "inference_loop"@,
        WatchdogId::TrackingLoop => "tracking_loop"@,
        WatchdogId::CommandLoop => "command_loop"@,
        WatchdogId::FcHeartbeat => "fc_heartbeat"@,
    }
}

impl WatchdogId {
    pub fn as_str(&self) -> (s: &'static str)
        ensures
            s@ == wd_name(*self),
    {
        match self {
            WatchdogId::VideoLoop => "video_loop",
            WatchdogId::InferenceLoop => "inference_loop",
            WatchdogId::TrackingLoop => "tracking_loop",
            WatchdogId::CommandLoop => "command_loop",
            WatchdogId::FcHeartbeat => "fc_heartbeat",
        }
    }

    fn index(&self) -> (i: usize)
        ensures
            i == wd_index(*self),
    {
        match self {
            WatchdogId::VideoLoop => 0,
            WatchdogId::InferenceLoop => 1,
            WatchdogId::TrackingLoop => 2,
            WatchdogId::CommandLoop => 3,
            WatchdogId::FcHeartbeat => 4,
        }
    }

    fn from_index(i: usize) -> (id: WatchdogId)
        requires
            i < WATCHDOG_COUNT,
        ensures
            id == wd_at(i as int),
            wd_index(id) == i,
    {
        if i == 0 {
            WatchdogId::VideoLoop
        } else if i == 1 {
            WatchdogId::InferenceLoop
        } else if i == 2 {
            WatchdogId::TrackingLoop
        } else if i == 3 {
            WatchdogId::CommandLoop
        } else {
            WatchdogId::FcHeartbeat
        }
    }
}

/// What the commander should do when a watchdog expires.
#[derive(Debug, Clone, Copy, PartialEq, Eq, Structural)]
pub enum WatchdogAction {
    /// Go to TRACKING_DEGRADED and keep operating.
    Degrade,
    /// Go to ABORT and return home.
    Abort,
}

/// Per-watchdog configuration: timeout and the action on expiry.
#[derive(Debug, Clone, Copy, PartialEq, Eq, Structural)]
pub struct WatchdogConfig {
    pub timeout_ms: u64,
    pub on_expiry: WatchdogAction,
}

impl WatchdogConfig {
    pub open spec fn new_spec(timeout_ms: u64, action: WatchdogAction) -> Self {
        WatchdogConfig { timeout_ms, on_expiry: action }
    }

    pub fn new(timeout_ms: u64, action: WatchdogAction) -> (c: Self)
        ensures
            c == Self::new_spec(timeout_ms, action),
    {
        WatchdogConfig { timeout_ms, on_expiry: action }
    }
}

/// State kept for one registered watchdog.
#[derive(Debug, Clone, Copy, PartialEq, Eq, Structural)]
pub struct WatchdogEntry {
    pub last_fed_ms: i64,
    pub config: WatchdogConfig,
    /// Expiries processed by the commander since registration.
    pub expiry_count: u64,
    /// Feeds since registration.
    pub feed_count: u64,
}

/// Milliseconds from `since` to `now`, zero when the clock went backwards.
pub open spec fn elapsed_since(now: i64, since: i64) -> int {
    if now > since { now - since } else { 0 }
}

pub(crate) fn elapsed_ms(now: i64, since: i64) -> (e: u64)
    ensures
        e == elapsed_since(now, since),
{
    if now > since {
        ((now as i128) - (since as i128)) as u64
    } else {
        0
    }
}

/// A watchdog entry is expired at `now` when more than its timeout has
/// passed since it was last fed.
pub open spec fn entry_expired(e: WatchdogEntry, now: i64) -> bool {
    elapsed_since(now, e.last_fed_ms) > e.config.timeout_ms
}

/// An entry after being fed at `now`.
pub open spec fn fed_entry(e: WatchdogEntry, now: i64) -> WatchdogEntry {
    WatchdogEntry { last_fed_ms: now, feed_count: (e.feed_count + 1) as u64, ..e }
}

/// Health report line for one watchdog.
#[derive(Debug, Clone, Copy, PartialEq, Eq, Structural)]
pub struct WatchdogSnapshot {
    pub id: WatchdogId,
    pub elapsed_ms: u64,
    pub timeout_ms: u64,
    pub expired: bool,
    pub expiry_count: u64,
    pub feed_count: u64,
}

/// The report line of a registered watchdog at `now`.
pub open spec fn snapshot_of(id: WatchdogId, e: WatchdogEntry, now: i64) -> WatchdogSnapshot {
    WatchdogSnapshot {
        id,
        elapsed_ms: elapsed_since(now, e.last_fed_ms) as u64,
        timeout_ms: e.config.timeout_ms,
        expired: entry_expired(e, now),
        expiry_count: e.expiry_count,
        feed_count: e.feed_count,
    }
}

/// Reads the system clock in milliseconds since the Unix epoch.
///
/// Calls `chrono::Utc::now()` and `DateTime::timestamp_millis`; nothing is
/// stated of the result, which is the time of the call.
#[verifier::external_body]
pub(crate) fn utc_now_ms() -> (t: i64) {
    chrono::Utc::now().timestamp_millis()
}

proof fn lemma_slots_len(slots: &[Option<WatchdogEntry>; 5])
    ensures
        slots@.len() == WATCHDOG_COUNT,
{
    vstd::array::array_len_matches_n(slots);
}

/// Registry of all watchdogs, one slot per `WatchdogId`.
#[derive(Debug)]
pub struct WatchdogRegistry {
    slots: [Option<WatchdogEntry>; 5],
}

/// The expired watchdogs among the first `n` slots, in registry order.
pub open spec fn expired_prefix(slots: Seq<Option<WatchdogEntry>>, now: i64, n: int) -> Seq<
    (WatchdogId, WatchdogAction),
>
    decreases n,
{
    if n <= 0 {
        Seq::empty()
    } else {
        let p = expired_prefix(slots, now, n - 1);
        match slots[n - 1] {
            Some(e) => if entry_expired(e, now) {
                p.push((wd_at(n - 1), e.config.on_expiry))
            } else {
                p
            },
            None => p,
        }
    }
}

proof fn lemma_wd_at_index(i: int)
    requires
        0 <= i < WATCHDOG_COUNT,
    ensures
        wd_index(wd_at(i)) == i,
{
}

/// Each entry of the expired list is an expired, registered watchdog among
/// the first `n`, listed with its configured action.
pub proof fn lemma_expired_prefix_sound(slots: Seq<Option<WatchdogEntry>>, now: i64, n: int)
    requires
        0 <= n <= WATCHDOG_COUNT,
        slots.len() == WATCHDOG_COUNT,
    ensures
        forall|k: int|
            0 <= k < expired_prefix(slots, now, n).len() ==> {
                let pair = #[trigger] expired_prefix(slots, now, n)[k];
                &&& 0 <= wd_index(pair.0) < n
                &&& slots[wd_index(pair.0)] matches Some(e)
                &&& entry_expired(e, now)
                &&& e.config.on_expiry == pair.1
            },
    decreases n,
{
    if n > 0 {
        lemma_expired_prefix_sound(slots, now, n - 1);
        lemma_wd_at_index(n - 1);
    }
}

/// The expired list is in strictly increasing registry order, so no
/// watchdog appears twice.
pub proof fn lemma_expired_prefix_ordered(slots: Seq<Option<WatchdogEntry>>, now: i64, n: int)
    requires
        0 <= n <= WATCHDOG_COUNT,
        slots.len() == WATCHDOG_COUNT,
    ensures
        forall|k1: int, k2: int|
            0 <= k1 < k2 < expired_prefix(slots, now, n).len() ==> wd_index(
                #[trigger] expired_prefix(slots, now, n)[k1].0,
            ) < wd_index(#[trigger] expired_prefix(slots, now, n)[k2].0),
    decreases n,
{
    if n > 0 {
        lemma_expired_prefix_ordered(slots, now, n - 1);
        lemma_expired_prefix_sound(slots, now, n - 1);
        lemma_wd_at_index(n - 1);
    }
}

/// Every expired, registered watchdog among the first `n` is listed.
pub proof fn lemma_expired_prefix_complete(slots: Seq<Option<WatchdogEntry>>, now: i64, n: int)
    requires
        0 <= n <= WATCHDOG_COUNT,
        slots.len() == WATCHDOG_COUNT,
    ensures
        forall|i: int|
            0 <= i < n && (#[trigger] slots[i] matches Some(e) && entry_expired(e, now))
                ==> exists|k: int|
                0 <= k < expired_prefix(slots, now, n).len() && #[trigger] expired_prefix(
                    slots,
                    now,
                    n,
                )[k].0 == wd_at(i),
    decreases n,
{
    if n > 0 {
        lemma_expired_prefix_complete(slots, now, n - 1);
        let p = expired_prefix(slots, now, n - 1);
        let q = expired_prefix(slots, now, n);
        assert forall|i: int|
            0 <= i < n && (#[trigger] slots[i] matches Some(e) && entry_expired(e, now)) implies exists|k: int|
            0 <= k < q.len() && #[trigger] q[k].0 == wd_at(i) by {
            if i < n - 1 {
                let k = choose|k: int| 0 <= k < p.len() && #[trigger] p[k].0 == wd_at(i);
                assert(q[k] == p[k]);
            } else {
                assert(q[q.len() - 1].0 == wd_at(i));
            }
        }
    }
}

/// The report lines of the registered watchdogs among the first `n` slots.
pub open spec fn snapshot_prefix(slots: Seq<Option<WatchdogEntry>>, now: i64, n: int) -> Seq<
    WatchdogSnapshot,
>
    decreases n,
{
    if n <= 0 {
        Seq::empty()
    } else {
        let p = snapshot_prefix(slots, now, n - 1);
        match slots[n - 1] {
            Some(e) => p.push(snapshot_of(wd_at(n - 1), e, now)),
            None => p,
        }
    }
}

impl WatchdogRegistry {
    /// The registry's contents: one optional entry per registry position.
    pub closed spec fn view_slots(&self) -> Seq<Option<WatchdogEntry>> {
        self.slots@
    }

    /// The entry of a watchdog, if it is registered.
    pub open spec fn entry(&self, id: WatchdogId) -> Option<WatchdogEntry> {
        self.view_slots()[wd_index(id)]
    }

    /// Watchdogs that are expired at `now`, in registry order.
    pub open spec fn expired_at(&self, now: i64) -> Seq<(WatchdogId, WatchdogAction)> {
        expired_prefix(self.view_slots(), now, WATCHDOG_COUNT as int)
    }

    /// Report lines at `now`, in registry order.
    pub open spec fn snapshot_at_spec(&self, now: i64) -> Seq<WatchdogSnapshot> {
        snapshot_prefix(self.view_slots(), now, WATCHDOG_COUNT as int)
    }

    /// True when every feed and expiry counter can still be incremented.
    pub open spec fn counters_below_max(&self) -> bool {
        forall|i: int|
            0 <= i < WATCHDOG_COUNT ==> (#[trigger] self.view_slots()[i] matches Some(e) ==> (
            e.feed_count < u64::MAX && e.expiry_count < u64::MAX))
    }

    /// The registry has one slot per watchdog.
    pub proof fn lemma_slots_count(self)
        ensures
            self.view_slots().len() == WATCHDOG_COUNT,
    {
        lemma_slots_len(&self.slots);
    }

    /// Whether every feed and expiry counter can still be incremented.
    pub fn has_counter_headroom(&self) -> (b: bool)
        ensures
            b == self.counters_below_max(),
    {
        proof {
            lemma_slots_len(&self.slots);
        }
        let mut i: usize = 0;
        while i < WATCHDOG_COUNT
            invariant
                i <= WATCHDOG_COUNT,
                self.view_slots().len() == WATCHDOG_COUNT,
                forall|j: int|
                    0 <= j < i ==> (#[trigger] self.view_slots()[j] matches Some(e) ==> (e.feed_count
                        < u64::MAX && e.expiry_count < u64::MAX)),
            decreases WATCHDOG_COUNT - i,
        {
            match self.slots[i] {
                Some(e) => {
                    if e.feed_count == u64::MAX || e.expiry_count == u64::MAX {
                        return false;
                    }
                },
                None => {},
            }
            i = i + 1;
        }
        true
    }

    pub fn new() -> (r: Self)
        ensures
            forall|id: WatchdogId| r.entry(id) is None,
    {
        let slots: [Option<WatchdogEntry>; 5] = [None, None, None, None, None];
        let r = WatchdogRegistry { slots };
        assert forall|id: WatchdogId| r.entry(id) is None by {
            assert(0 <= wd_index(id) < 5);
        }
        r
    }

    /// Whether a watchdog is registered.
    pub fn is_registered(&self, id: WatchdogId) -> (b: bool)
        ensures
            b == self.entry(id) is Some,
    {
        proof {
            lemma_slots_len(&self.slots);
        }
        self.slots[id.index()].is_some()
    }

    /// The entry of a watchdog, if it is registered.
    pub fn get(&self, id: WatchdogId) -> (e: Option<WatchdogEntry>)
        ensures
            e == self.entry(id),
    {
        proof {
            lemma_slots_len(&self.slots);
        }
        self.slots[id.index()]
    }

    /// Registers a watchdog fed at `now_ms` with fresh counters, replacing
    /// any earlier registration of the same id.
    pub fn register_at(&mut self, id: WatchdogId, config: WatchdogConfig, now_ms: i64)
        ensures
            final(self).entry(id) == Some(
                WatchdogEntry { last_fed_ms: now_ms, config, expiry_count: 0, feed_count: 0 },
            ),
            forall|other: WatchdogId| other != id ==> final(self).entry(other) == old(self).entry(
                other,
            ),
    {
        proof {
            lemma_slots_len(&self.slots);
        }
        let i = id.index();
        self.slots[i] = Some(
            WatchdogEntry { last_fed_ms: now_ms, config, expiry_count: 0, feed_count: 0 },
        );
        assert forall|other: WatchdogId| other != id implies final(self).entry(other) == old(
            self,
        ).entry(other) by {
            assert(wd_index(other) != wd_index(id));
        }
    }

    /// Registers a watchdog as fed now (system clock).
    pub fn register(&mut self, id: WatchdogId, config: WatchdogConfig)
        ensures
            final(self).entry(id) matches Some(e) && e.config == config && e.expiry_count == 0
                && e.feed_count == 0,
            forall|other: WatchdogId| other != id ==> final(self).entry(other) == old(self).entry(
                other,
            ),
    {
        let now = utc_now_ms();
        self.register_at(id, config, now);
    }

    /// Feeds a watchdog at `now_ms`: its last-fed time becomes `now_ms` and
    /// its feed count grows by one. Feeding an unregistered watchdog changes
    /// nothing.
    pub fn feed_at(&mut self, id: WatchdogId, now_ms: i64)
        requires
            old(self).entry(id) matches Some(e) ==> e.feed_count < u64::MAX,
        ensures
            final(self).entry(id) == match old(self).entry(id) {
                Some(e) => Some(fed_entry(e, now_ms)),
                None => None,
            },
            forall|other: WatchdogId| other != id ==> final(self).entry(other) == old(self).entry(
                other,
            ),
    {
        proof {
            lemma_slots_len(&self.slots);
        }
        let i = id.index();
        match self.slots[i] {
            Some(e) => {
                self.slots[i] = Some(
                    WatchdogEntry { last_fed_ms: now_ms, feed_count: e.feed_count + 1, ..e },
                );
            },
            None => {},
        }
        assert forall|other: WatchdogId| other != id implies final(self).entry(other) == old(
            self,
        ).entry(other) by {
            assert(wd_index(other) != wd_index(id));
        }
    }

    /// Feeds a watchdog now (system clock).
    pub fn feed(&mut self, id: WatchdogId)
        requires
            old(self).entry(id) matches Some(e) ==> e.feed_count < u64::MAX,
        ensures
            final(self).entry(id) matches Some(e) ==> (old(self).entry(id) matches Some(o) && e
                == fed_entry(o, e.last_fed_ms)),
            old(self).entry(id) is None ==> final(self).entry(id) is None,
            forall|other: WatchdogId| other != id ==> final(self).entry(other) == old(self).entry(
                other,
            ),
    {
        let now = utc_now_ms();
        self.feed_at(id, now);
    }

    /// The watchdogs expired at `now_ms` (more than their timeout since the
    /// last feed), each with its configured action, in registry order.
    /// Expired watchdogs stay expired until they are fed again.
    pub fn check_expired_at(&self, now_ms: i64) -> (r: Vec<(WatchdogId, WatchdogAction)>)
        ensures
            r@ == self.expired_at(now_ms),
    {
        proof {
            lemma_slots_len(&self.slots);
        }
        let mut out: Vec<(WatchdogId, WatchdogAction)> = Vec::new();
        let mut i: usize = 0;
        while i < WATCHDOG_COUNT
            invariant
                i <= WATCHDOG_COUNT,
                self.view_slots().len() == WATCHDOG_COUNT,
                out@ == expired_prefix(self.view_slots(), now_ms, i as int),
            decreases WATCHDOG_COUNT - i,
        {
            match self.slots[i] {
                Some(e) => {
                    if elapsed_ms(now_ms, e.last_fed_ms) > e.config.timeout_ms {
                        out.push((WatchdogId::from_index(i), e.config.on_expiry));
                    }
                },
                None => {},
            }
            i = i + 1;
        }
        out
    }

    /// The watchdogs expired now (system clock).
    pub fn check_expired(&self) -> (r: Vec<(WatchdogId, WatchdogAction)>)
        ensures
            exists|now: i64| r@ == self.expired_at(now),
    {
        let now = utc_now_ms();
        self.check_expired_at(now)
    }

    /// Report lines of all registered watchdogs at `now_ms`.
    pub fn snapshot_at(&self, now_ms: i64) -> (r: Vec<WatchdogSnapshot>)
        ensures
            r@ == self.snapshot_at_spec(now_ms),
    {
        proof {
            lemma_slots_len(&self.slots);
        }
        let mut out: Vec<WatchdogSnapshot> = Vec::new();
        let mut i: usize = 0;
        while i < WATCHDOG_COUNT
            invariant
                i <= WATCHDOG_COUNT,
                self.view_slots().len() == WATCHDOG_COUNT,
                out@ == snapshot_prefix(self.view_slots(), now_ms, i as int),
            decreases WATCHDOG_COUNT - i,
        {
            match self.slots[i] {
                Some(e) => {
                    let elapsed = elapsed_ms(now_ms, e.last_fed_ms);
                    out.push(
                        WatchdogSnapshot {
                            id: WatchdogId::from_index(i),
                            elapsed_ms: elapsed,
                            timeout_ms: e.config.timeout_ms,
                            expired: elapsed > e.config.timeout_ms,
                            expiry_count: e.expiry_count,
                            feed_count: e.feed_count,
                        },
                    );
                },
                None => {},
            }
            i = i + 1;
        }
        out
    }

    /// Report lines now (system clock).
    pub fn snapshot(&self) -> (r: Vec<WatchdogSnapshot>)
        ensures
            exists|now: i64| r@ == self.snapshot_at_spec(now),
    {
        let now = utc_now_ms();
        self.snapshot_at(now)
    }

    /// Counts one processed expiry of a registered watchdog; does nothing
    /// for an unregistered one.
    pub fn note_expiry_processed(&mut self, id: WatchdogId)
        requires
            old(self).entry(id) matches Some(e) ==> e.expiry_count < u64::MAX,
        ensures
            final(self).entry(id) == match old(self).entry(id) {
                Some(e) => Some(WatchdogEntry { expiry_count: (e.expiry_count + 1) as u64, ..e }),
                None => None,
            },
            forall|other: WatchdogId| other != id ==> final(self).entry(other) == old(self).entry(
                other,
            ),
    {
        proof {
            lemma_slots_len(&self.slots);
        }
        let i = id.index();
        match self.slots[i] {
            Some(e) => {
                self.slots[i] = Some(WatchdogEntry { expiry_count: e.expiry_count + 1, ..e });
            },
            None => {},
        }
        assert forall|other: WatchdogId| other != id implies final(self).entry(other) == old(
            self,
        ).entry(other) by {
            assert(wd_index(other) != wd_index(id));
        }
    }
}

/// A freshly registered watchdog is not expired at its registration time.
pub proof fn fresh_watchdog_not_expired(config: WatchdogConfig, now: i64)
    ensures
        !entry_expired(WatchdogEntry { last_fed_ms: now, config, expiry_count: 0, feed_count: 0 }, now),
{
}

/// Feeding a watchdog resets it: it is not expired at the time it was fed.
pub proof fn feeding_resets_watchdog(e: WatchdogEntry, now: i64)
    ensures
        !entry_expired(fed_entry(e, now), now),
{
}

/// An expired watchdog stays expired as time goes on until it is fed.
pub proof fn expiry_persists_until_fed(e: WatchdogEntry, t1: i64, t2: i64)
    requires
        entry_expired(e, t1),
        t1 <= t2,
    ensures
        entry_expired(e, t2),
{
}

/// A watchdog fed within its timeout is not expired.
pub proof fn fed_within_timeout_not_expired(e: WatchdogEntry, now: i64)
    requires
        now - e.last_fed_ms <= e.config.timeout_ms,
    ensures
        !entry_expired(e, now),
{
}

} // verus!
