//! Per-subject cooldowns: the time of each subject's last event, and the gap
//! that must pass before the next one.

use vstd::prelude::*;
use crate::env::RateLimitError;
use crate::registry::{map_of, Registry};

verus! {

/// Whether an event for `subject` at `now` comes before the gap since its last
/// recorded event has passed.
pub open spec fn too_soon(last: Map<Seq<char>, u64>, subject: Seq<char>, now: u64, gap: u64) -> bool {
    last.contains_key(subject) && (now as int) - (last[subject] as int) < gap as int
}

/// Whether an event recorded at `last_ms` is older than the gap at `now`.
pub open spec fn expired(last_ms: u64, now: u64, gap: u64) -> bool {
    (now as int) - (last_ms as int) > gap as int
}

/// The entries of `last` that are not expired at `now`.
pub open spec fn pruned(last: Map<Seq<char>, u64>, now: u64, gap: u64) -> Map<Seq<char>, u64> {
    Map::new(|k: Seq<char>| last.contains_key(k) && !expired(last[k], now, gap), |k: Seq<char>| last[k])
}

/// The last event time of each subject that has one.
pub struct RateLimiter {
    last_event: Registry<u64>,
}

impl View for RateLimiter {
    type V = Map<Seq<char>, u64>;

    closed spec fn view(&self) -> Map<Seq<char>, u64> {
        self.last_event@
    }
}

impl RateLimiter {
    pub closed spec fn wf(&self) -> bool {
        self.last_event.wf()
    }

    pub fn new() -> (r: Self)
        ensures
            r.wf(),
            r@ == Map::<Seq<char>, u64>::empty(),
    {
        RateLimiter { last_event: Registry::new() }
    }

    /// Time of the last recorded event of `subject`.
    pub fn last_event_ms(&self, subject: &String) -> (r: Option<u64>)
        requires
            self.wf(),
        ensures
            r == (if self@.contains_key(subject@) {
                Some(self@[subject@])
            } else {
                None::<u64>
            }),
    {
        match self.last_event.get(subject) {
            Some(t) => Some(*t),
            None => None,
        }
    }

    /// A rate limiter holding the last event times that `entries` give.
    pub fn from_entries(entries: Vec<(String, u64)>) -> (r: Self)
        ensures
            r.wf(),
            r@ == map_of(entries@),
    {
        RateLimiter { last_event: Registry::from_entries(entries) }
    }

    /// The last event time of each subject, each subject once.
    pub fn into_entries(self) -> (r: Vec<(String, u64)>)
        requires
            self.wf(),
        ensures
            map_of(r@) == self@,
            forall|i: int, j: int| 0 <= i < r@.len() && 0 <= j < r@.len() && i != j ==> r@[i].0@ != r@[j].0@,
    {
        self.last_event.into_entries()
    }

    /// Number of subjects with a recorded event.
    pub fn len(&self) -> (n: usize)
        requires
            self.wf(),
        ensures
            self@.dom().finite(),
            n == self@.dom().len(),
    {
        proof {
            self.last_event.lemma_len();
        }
        self.last_event.len()
    }

    /// Whether an event of `subject` at `now` would come too soon.
    pub fn is_too_soon(&self, subject: &String, now: u64, gap: u64) -> (r: bool)
        requires
            self.wf(),
        ensures
            r == too_soon(self@, subject@, now, gap),
    {
        match self.last_event.get(subject) {
            Some(t) => now < *t || now - *t < gap,
            None => false,
        }
    }

    /// Refuses an event that comes too soon; otherwise records `now` as the
    /// subject's last event.
    pub fn check_and_record(&mut self, subject: String, now: u64, gap: u64) -> (r: Result<(), RateLimitError>)
        requires
            old(self).wf(),
        ensures
            final(self).wf(),
            too_soon(old(self)@, subject@, now, gap) ==> r == Err::<(), RateLimitError>(
                RateLimitError::TooSoon,
            ) && final(self)@ == old(self)@,
            !too_soon(old(self)@, subject@, now, gap) ==> r is Ok && final(self)@ == old(self)@.insert(
                subject@,
                now,
            ),
    {
        if self.is_too_soon(&subject, now, gap) {
            Err(RateLimitError::TooSoon)
        } else {
            self.last_event.insert(subject, now);
            Ok(())
        }
    }

    /// Drops every entry older than the gap.
    pub fn prune(&mut self, now: u64, gap: u64)
        requires
            old(self).wf(),
        ensures
            final(self).wf(),
            final(self)@ == pruned(old(self)@, now, gap),
    {
        let ghost pre = self.last_event;
        let mut fresh: Registry<u64> = Registry::new();
        let n = self.last_event.len();
        let mut i: usize = 0;
        while i < n
            invariant
                n == pre.stored(),
                self.last_event == pre,
                pre.wf(),
                i <= n,
                fresh.wf(),
                forall|k: Seq<char>| #[trigger]
                    fresh@.contains_key(k) <==> (pre@.contains_key(k) && !expired(pre@[k], now, gap)
                        && exists|j: int| 0 <= j < i && pre.key_at(j) == k),
                forall|k: Seq<char>| #[trigger] fresh@.contains_key(k) ==> fresh@[k] == pre@[k],
            decreases n - i,
        {
            let (key, t) = self.last_event.entry_at(i);
            let ghost fk = key@;
            if !(now >= *t && now - *t > gap) {
                let ghost before = fresh@;
                fresh.insert(key.clone(), *t);
                assert forall|k: Seq<char>| #[trigger]
                    fresh@.contains_key(k) <==> (pre@.contains_key(k) && !expired(pre@[k], now, gap)
                        && exists|j: int| 0 <= j < i + 1 && pre.key_at(j) == k) by {
                    if k == fk {
                        assert(pre.key_at(i as int) == k);
                    } else if exists|j: int| 0 <= j < i + 1 && pre.key_at(j) == k {
                        let j = choose|j: int| 0 <= j < i + 1 && pre.key_at(j) == k;
                        assert(j != i);
                        assert(before.contains_key(k) || !(pre@.contains_key(k) && !expired(pre@[k], now, gap)));
                    }
                }
            } else {
                assert forall|k: Seq<char>| #[trigger]
                    fresh@.contains_key(k) <==> (pre@.contains_key(k) && !expired(pre@[k], now, gap)
                        && exists|j: int| 0 <= j < i + 1 && pre.key_at(j) == k) by {
                    if exists|j: int| 0 <= j < i + 1 && pre.key_at(j) == k {
                        let j = choose|j: int| 0 <= j < i + 1 && pre.key_at(j) == k;
                        if j < i {
                            assert(exists|j2: int| 0 <= j2 < i && pre.key_at(j2) == k);
                        }
                    }
                }
            }
            i = i + 1;
        }
        proof {
            assert forall|k: Seq<char>| pre@.contains_key(k) implies exists|j: int|
                0 <= j < n && pre.key_at(j) == k by {
                pre.lemma_key(k);
            }
            assert(fresh@ =~= pruned(pre@, now, gap));
        }
        self.last_event = fresh;
    }

    /// Forgets every subject.
    pub fn clear(&mut self)
        requires
            old(self).wf(),
        ensures
            final(self).wf(),
            final(self)@ == Map::<Seq<char>, u64>::empty(),
    {
        self.last_event.clear();
    }
}

/// One step in the history of a rate limiter.
pub enum CooldownEvent {
    /// An event of `subject` at `now`, checked and recorded.
    Record { subject: Seq<char>, now: u64 },
    /// Expired entries dropped at `now`.
    Prune { now: u64 },
}

pub open spec fn event_time(e: CooldownEvent) -> u64 {
    match e {
        CooldownEvent::Record { now, .. } => now,
        CooldownEvent::Prune { now } => now,
    }
}

/// The entries after `e`, as `check_and_record` and `prune` leave them.
pub open spec fn apply_event(last: Map<Seq<char>, u64>, e: CooldownEvent, gap: u64) -> Map<Seq<char>, u64> {
    match e {
        CooldownEvent::Record { subject, now } => if too_soon(last, subject, now, gap) {
            last
        } else {
            last.insert(subject, now)
        },
        CooldownEvent::Prune { now } => pruned(last, now, gap),
    }
}

/// The entries after every event of `events`, in order.
pub open spec fn replay(last: Map<Seq<char>, u64>, events: Seq<CooldownEvent>, gap: u64) -> Map<Seq<char>, u64>
    decreases events.len(),
{
    if events.len() == 0 {
        last
    } else {
        apply_event(replay(last, events.drop_last(), gap), events.last(), gap)
    }
}

/// Event `i` of `events` is a recorded event of `subject` at `now` that was
/// not refused.
pub open spec fn granted(
    start: Map<Seq<char>, u64>,
    events: Seq<CooldownEvent>,
    gap: u64,
    i: int,
    subject: Seq<char>,
    now: u64,
) -> bool {
    &&& events[i] == (CooldownEvent::Record { subject, now })
    &&& !too_soon(replay(start, events.take(i), gap), subject, now, gap)
}

/// The events happen in time order.
pub open spec fn in_time_order(events: Seq<CooldownEvent>) -> bool {
    forall|a: int, b: int| 0 <= a <= b < events.len() ==> event_time(events[a]) <= event_time(events[b])
}

proof fn lemma_replay_step(start: Map<Seq<char>, u64>, events: Seq<CooldownEvent>, gap: u64, k: int)
    requires
        0 < k <= events.len(),
    ensures
        replay(start, events.take(k), gap) == apply_event(replay(start, events.take(k - 1), gap), events[k - 1], gap),
{
    assert(events.take(k).drop_last() =~= events.take(k - 1));
}

/// After a granted event of `subject` at `t1` (event `i`), the subject's
/// entry is never older than `t1`, and once it is gone, more than the gap has
/// passed since `t1`.
proof fn lemma_entry_since(
    start: Map<Seq<char>, u64>,
    events: Seq<CooldownEvent>,
    gap: u64,
    i: int,
    subject: Seq<char>,
    t1: u64,
    k: int,
)
    requires
        0 <= i < k <= events.len(),
        in_time_order(events),
        granted(start, events, gap, i, subject, t1),
    ensures
        ({
            let m = replay(start, events.take(k), gap);
            &&& m.contains_key(subject) ==> m[subject] >= t1
            &&& !m.contains_key(subject) ==> (event_time(events[k - 1]) as int) - (t1 as int) > gap as int
        }),
    decreases k - i,
{
    lemma_replay_step(start, events, gap, k);
    if k > i + 1 {
        lemma_entry_since(start, events, gap, i, subject, t1, k - 1);
        assert(event_time(events[i]) <= event_time(events[k - 1]));
        assert(event_time(events[k - 2]) <= event_time(events[k - 1]));
    }
}

/// Two granted events of one subject are at least the gap apart, whatever
/// events of other subjects and prunes come between them, as long as events
/// happen in time order.
pub proof fn lemma_cooldown_gap(
    start: Map<Seq<char>, u64>,
    events: Seq<CooldownEvent>,
    gap: u64,
    subject: Seq<char>,
    i: int,
    t1: u64,
    j: int,
    t2: u64,
)
    requires
        0 <= i < j < events.len(),
        in_time_order(events),
        granted(start, events, gap, i, subject, t1),
        granted(start, events, gap, j, subject, t2),
    ensures
        (t2 as int) - (t1 as int) >= gap as int,
{
    lemma_entry_since(start, events, gap, i, subject, t1, j);
    assert(event_time(events[j - 1]) <= event_time(events[j]));
}

} // verus!
