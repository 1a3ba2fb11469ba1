//! Time decay and freshness: how long ago the item was last active, and
//! how late in the period that was.

use vstd::prelude::*;
use crate::period::PeriodType;
use crate::ratio::Ratio;
use crate::records::Event;

verus! {

/// The ingredients of the decay factor
/// `exp(-rate * elapsed_ms / 3_600_000) * (1 + freshness_boost)`.
#[derive(Clone, Copy, Debug, PartialEq, Eq, Structural)]
pub struct Decay {
    pub elapsed_ms: u64,
    pub rate: Ratio,
    pub freshness_boost: Ratio,
}

/// The latest timestamp among `es`, and `now` where there is no event.
pub open spec fn last_activity_of(es: Seq<Event>, now: u64) -> u64
    decreases es.len(),
{
    if es.len() == 0 {
        now
    } else if es.len() == 1 {
        es[0].timestamp
    } else {
        let rest = last_activity_of(es.drop_last(), now);
        if es.last().timestamp >= rest {
            es.last().timestamp
        } else {
            rest
        }
    }
}

/// Time from `then` to `now`, zero where `then` is yet to come.
pub open spec fn elapsed_between(then: u64, now: u64) -> u64 {
    if now >= then {
        (now - then) as u64
    } else {
        0
    }
}

/// Half of the share of the period that lay before the last activity:
/// 1/2 for activity right now, 0 for activity at the period's start or
/// earlier, and 0 for a period without length.
pub open spec fn freshness_of(elapsed: u64, span: u64) -> Ratio {
    if span == 0 {
        Ratio::spec_zero()
    } else {
        let position = if elapsed < span { elapsed } else { span };
        Ratio { num: (span - position) as i128, den: (2 * span) as u128 }
    }
}

pub open spec fn decay_of(
    es: Seq<Event>,
    period_start: u64,
    now: u64,
    period: PeriodType,
) -> Decay {
    let elapsed = elapsed_between(last_activity_of(es, now), now);
    Decay {
        elapsed_ms: elapsed,
        rate: Ratio { num: period.spec_freshness_decay_permille() as i128, den: 1000 },
        freshness_boost: freshness_of(elapsed, elapsed_between(period_start, now)),
    }
}

impl Decay {
    /// The rate is positive and the boost lies between 0 and 1/2. The
    /// elapsed time is never negative, so the exponential of the decay lies
    /// in (0, 1] and the whole factor in (0, 3/2].
    pub open spec fn wf(self) -> bool {
        &&& self.rate.wf()
        &&& self.rate.num > 0
        &&& self.freshness_boost.wf()
        &&& 0 <= self.freshness_boost.num
        &&& 2 * self.freshness_boost.num <= self.freshness_boost.den
    }
}

/// The last activity of a buffer that is not empty is the timestamp of one
/// of its events, and no event is later.
pub proof fn lemma_last_activity(es: Seq<Event>, now: u64)
    requires
        es.len() > 0,
    ensures
        forall|i: int|
            0 <= i < es.len() ==> (#[trigger] es[i]).timestamp <= last_activity_of(es, now),
        exists|i: int|
            0 <= i < es.len() && (#[trigger] es[i]).timestamp == last_activity_of(es, now),
    decreases es.len(),
{
    if es.len() > 1 {
        let rest = es.drop_last();
        lemma_last_activity(rest, now);
        let k = choose|i: int| 0 <= i < rest.len() && (#[trigger] rest[i]).timestamp
            == last_activity_of(rest, now);
        assert(es[k] == rest[k]);
        assert forall|i: int| 0 <= i < es.len() implies (#[trigger] es[i]).timestamp
            <= last_activity_of(es, now) by {
            if i < rest.len() {
                assert(es[i] == rest[i]);
            }
        }
        if es.last().timestamp >= last_activity_of(rest, now) {
            assert(es[es.len() - 1].timestamp == last_activity_of(es, now));
        } else {
            assert(es[k].timestamp == last_activity_of(es, now));
        }
    } else {
        assert(es[0].timestamp == last_activity_of(es, now));
    }
}

/// Finds when the item was last active.
pub fn last_activity(events: &Vec<Event>, now: u64) -> (last: u64)
    ensures
        last == last_activity_of(events@, now),
{
    let n: usize = events.len();
    if n == 0 {
        return now;
    }
    let mut last: u64 = events[0].timestamp;
    let mut i: usize = 1;
    proof {
        assert(events@.take(1).len() == 1);
    }
    while i < n
        invariant
            n == events.len(),
            1 <= i <= n,
            last == last_activity_of(events@.take(i as int), now),
        decreases n - i,
    {
        proof {
            assert(events@.take(i + 1).drop_last() =~= events@.take(i as int));
        }
        if events[i].timestamp >= last {
            last = events[i].timestamp;
        }
        i += 1;
    }
    proof {
        assert(events@.take(n as int) =~= events@);
    }
    last
}

/// The freshness boost of an activity `elapsed` ago in a period that
/// began `span` ago.
pub fn freshness_boost(elapsed: u64, span: u64) -> (r: Ratio)
    ensures
        r == freshness_of(elapsed, span),
        r.wf(),
        0 <= r.num,
        2 * r.num <= r.den,
{
    if span == 0 {
        Ratio::zero()
    } else {
        let position: u64 = if elapsed < span { elapsed } else { span };
        Ratio { num: (span - position) as i128, den: 2 * (span as u128) }
    }
}

/// The decay of an item whose events are `events`, at the instant `now`
/// of a period that began at `period_start`.
pub fn apply_time_decay(
    events: &Vec<Event>,
    period_start: u64,
    now: u64,
    period: PeriodType,
) -> (d: Decay)
    ensures
        d == decay_of(events@, period_start, now, period),
        d.wf(),
{
    let last: u64 = last_activity(events, now);
    let elapsed: u64 = if now >= last { now - last } else { 0 };
    let span: u64 = if now >= period_start { now - period_start } else { 0 };
    Decay {
        elapsed_ms: elapsed,
        rate: period.freshness_decay_rate(),
        freshness_boost: freshness_boost(elapsed, span),
    }
}

} // verus!
