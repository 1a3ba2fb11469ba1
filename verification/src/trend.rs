//! Growth and momentum of an hourly histogram.
//!
//! Growth compares the activity of the most recent hours with that of the
//! equally long stretch before them. Momentum is the mean relative change
//! between consecutive recent buckets; the estimator yields the terms of that
//! mean exactly and leaves their evaluation to the caller.

use vstd::prelude::*;
use crate::histogram::{lemma_total_prefix, total, Bucket, Histogram, MAX_TOTAL};
use crate::period::PeriodType;
use crate::ratio::Ratio;
use crate::records::{hour_bucket, hour_of};

verus! {

/// One relative change `(cur - prev) / prev` between two consecutive
/// buckets; `prev` is positive.
#[derive(Clone, Copy, Debug, PartialEq, Eq, Structural)]
pub struct Slope {
    pub prev: u128,
    pub cur: u128,
}

/// Growth and momentum of one histogram.
///
/// Momentum is the mean of `slopes`, clamped to `[-1, 2]`, where `slopes`
/// is not empty, and `fallback` where it is.
#[derive(Clone, Debug, PartialEq, Eq)]
pub struct Trend {
    pub growth: Ratio,
    pub fallback: Ratio,
    pub slopes: Vec<Slope>,
}

pub struct TrendModel {
    pub growth: Ratio,
    pub fallback: Ratio,
    pub slopes: Seq<Slope>,
}

impl View for Trend {
    type V = TrendModel;

    open spec fn view(&self) -> TrendModel {
        TrendModel { growth: self.growth, fallback: self.fallback, slopes: self.slopes@ }
    }
}

impl TrendModel {
    /// The trend of no activity at all.
    pub open spec fn flat() -> TrendModel {
        TrendModel {
            growth: Ratio::spec_zero(),
            fallback: Ratio::spec_zero(),
            slopes: Seq::empty(),
        }
    }

    /// Growth is a fraction no smaller than -1 whose parts are bounded like
    /// the histogram they come from, the fallback is 0 or 1/2,
    /// and every slope has a positive base, so that no relative change is
    /// below -1.
    pub open spec fn bounded(self) -> bool {
        &&& self.growth.wf()
        &&& self.growth.at_least(-1)
        &&& self.growth.num <= MAX_TOTAL
        &&& self.growth.den <= MAX_TOTAL
        &&& (self.fallback == Ratio::spec_zero() || self.fallback == Ratio { num: 1, den: 2 })
        &&& self.fallback.at_least(-1)
        &&& self.fallback.at_most(2)
        &&& forall|i: int| 0 <= i < self.slopes.len() ==> (#[trigger] self.slopes[i]).prev > 0
    }
}

/// Whole hours from `hour` to `current_hour`, zero for an hour yet to come.
pub open spec fn hours_ago(current_hour: u64, hour: u64) -> nat {
    if current_hour >= hour {
        (current_hour - hour) as nat
    } else {
        0
    }
}

pub open spec fn is_recent(b: Bucket, current_hour: u64, width: u64) -> bool {
    hours_ago(current_hour, b.hour) < width
}

pub open spec fn is_previous(b: Bucket, current_hour: u64, width: u64) -> bool {
    width <= hours_ago(current_hour, b.hour) < 2 * width
}

/// Activity of the buckets less than `width` hours old.
pub open spec fn recent_total(s: Seq<Bucket>, current_hour: u64, width: u64) -> nat
    decreases s.len(),
{
    if s.len() == 0 {
        0
    } else {
        recent_total(s.drop_last(), current_hour, width) + if is_recent(
            s.last(),
            current_hour,
            width,
        ) {
            s.last().count as nat
        } else {
            0
        }
    }
}

/// Activity of the buckets at least `width` and less than `2 * width`
/// hours old.
pub open spec fn previous_total(s: Seq<Bucket>, current_hour: u64, width: u64) -> nat
    decreases s.len(),
{
    if s.len() == 0 {
        0
    } else {
        previous_total(s.drop_last(), current_hour, width) + if is_previous(
            s.last(),
            current_hour,
            width,
        ) {
            s.last().count as nat
        } else {
            0
        }
    }
}

/// Counts of the buckets less than `width` hours old, in the order of `s`.
pub open spec fn recent_counts(s: Seq<Bucket>, current_hour: u64, width: u64) -> Seq<u128>
    decreases s.len(),
{
    if s.len() == 0 {
        Seq::empty()
    } else if is_recent(s.last(), current_hour, width) {
        recent_counts(s.drop_last(), current_hour, width).push(s.last().count)
    } else {
        recent_counts(s.drop_last(), current_hour, width)
    }
}

/// The changes between neighbours in `c` whose first count is positive.
pub open spec fn slopes_of(c: Seq<u128>) -> Seq<Slope>
    decreases c.len(),
{
    if c.len() < 2 {
        Seq::empty()
    } else if c[c.len() - 2] > 0 {
        slopes_of(c.drop_last()).push(Slope { prev: c[c.len() - 2], cur: c[c.len() - 1] })
    } else {
        slopes_of(c.drop_last())
    }
}

/// Relative change from `previous` to `recent`. With no earlier activity
/// to compare with, any recent activity counts as growth of 2.
pub open spec fn growth_of(recent: nat, previous: nat) -> Ratio {
    if previous == 0 {
        if recent > 0 {
            Ratio { num: 2, den: 1 }
        } else {
            Ratio::spec_zero()
        }
    } else {
        Ratio { num: (recent - previous) as i128, den: previous as u128 }
    }
}

/// Momentum where the histogram is too thin to take a mean.
pub open spec fn fallback_of(growth: Ratio) -> Ratio {
    if growth.is_positive() {
        Ratio { num: 1, den: 2 }
    } else {
        Ratio::spec_zero()
    }
}

/// The trend of the histogram `s` at the instant `now`.
pub open spec fn trend_of(s: Seq<Bucket>, now: u64, period: PeriodType) -> TrendModel {
    let cur = hour_of(now);
    let w = period.spec_comparison_hours() as u64;
    let growth = growth_of(recent_total(s, cur, w), previous_total(s, cur, w));
    let latest = recent_counts(s, cur, w);
    TrendModel {
        growth,
        fallback: fallback_of(growth),
        slopes: if s.len() < 3 || latest.len() < 3 {
            Seq::empty()
        } else {
            slopes_of(latest)
        },
    }
}

/// Every slope has a positive base.
pub proof fn lemma_slopes_positive(c: Seq<u128>)
    ensures
        forall|i: int| 0 <= i < slopes_of(c).len() ==> (#[trigger] slopes_of(c)[i]).prev > 0,
    decreases c.len(),
{
    if c.len() >= 2 {
        lemma_slopes_positive(c.drop_last());
        let rest = slopes_of(c.drop_last());
        assert forall|i: int| 0 <= i < slopes_of(c).len() implies (#[trigger] slopes_of(c)[i]).prev
            > 0 by {
            if i < rest.len() {
                assert(rest[i].prev > 0);
            }
        }
    }
}

/// The two sub-windows are disjoint parts of the histogram.
pub proof fn lemma_totals_bounded(s: Seq<Bucket>, current_hour: u64, width: u64)
    ensures
        recent_total(s, current_hour, width) + previous_total(s, current_hour, width) <= total(s),
    decreases s.len(),
{
    if s.len() > 0 {
        lemma_totals_bounded(s.drop_last(), current_hour, width);
    }
}

/// Growth is never below -1 and momentum never leaves `[-1, 2]`, whatever
/// the histogram, the instant and the period: the fallback is 0 or 1/2, and
/// a mean of changes that are each at least -1 is clamped from above only by
/// the caller.
pub proof fn lemma_trend_bounded(s: Seq<Bucket>, now: u64, period: PeriodType)
    requires
        total(s) <= MAX_TOTAL,
    ensures
        trend_of(s, now, period).bounded(),
{
    let cur = hour_of(now);
    let w = period.spec_comparison_hours() as u64;
    lemma_totals_bounded(s, cur, w);
    lemma_slopes_positive(recent_counts(s, cur, w));
}

/// An empty histogram has the flat trend.
pub proof fn lemma_trend_of_nothing(now: u64, period: PeriodType)
    ensures
        trend_of(Seq::empty(), now, period) == TrendModel::flat(),
{
}

fn collect_slopes(latest: &Vec<u128>) -> (slopes: Vec<Slope>)
    ensures
        slopes@ == slopes_of(latest@),
{
    let mut slopes: Vec<Slope> = Vec::new();
    let n: usize = latest.len();
    if n < 2 {
        return slopes;
    }
    let mut i: usize = 1;
    while i < n
        invariant
            n == latest.len(),
            1 <= i <= n,
            slopes@ == slopes_of(latest@.take(i as int)),
        decreases n - i,
    {
        proof {
            assert(latest@.take(i + 1).drop_last() =~= latest@.take(i as int));
        }
        let prev: u128 = latest[i - 1];
        let cur: u128 = latest[i];
        if prev > 0 {
            slopes.push(Slope { prev, cur });
        }
        i += 1;
    }
    proof {
        assert(latest@.take(n as int) =~= latest@);
    }
    slopes
}

/// Estimates growth and momentum of `hist` as seen at `now`.
pub fn calculate_growth_and_momentum(hist: &Histogram, now: u64, period: PeriodType) -> (t: Trend)
    requires
        hist.wf(),
    ensures
        t@ == trend_of(hist@, now, period),
        t@.bounded(),
{
    let cur: u64 = hour_bucket(now);
    let w: u64 = period.comparison_hours();
    let n: usize = hist.buckets.len();
    let mut recent: u128 = 0;
    let mut previous: u128 = 0;
    let mut latest: Vec<u128> = Vec::new();
    let mut i: usize = 0;
    while i < n
        invariant
            n == hist@.len(),
            i <= n,
            w == period.spec_comparison_hours(),
            total(hist@) <= MAX_TOTAL,
            recent == recent_total(hist@.take(i as int), cur, w),
            previous == previous_total(hist@.take(i as int), cur, w),
            latest@ == recent_counts(hist@.take(i as int), cur, w),
        decreases n - i,
    {
        let b: Bucket = hist.buckets[i];
        proof {
            assert(hist@.take(i + 1).drop_last() =~= hist@.take(i as int));
            lemma_totals_bounded(hist@.take(i + 1), cur, w);
            lemma_total_prefix(hist@, i + 1);
        }
        let ago: u64 = if cur >= b.hour { cur - b.hour } else { 0 };
        if ago < w {
            recent = recent + b.count;
            latest.push(b.count);
        } else if ago < 2 * w {
            previous = previous + b.count;
        }
        i += 1;
    }
    proof {
        assert(hist@.take(n as int) =~= hist@);
        lemma_totals_bounded(hist@, cur, w);
        lemma_trend_bounded(hist@, now, period);
    }
    let growth = if previous == 0 {
        if recent > 0 {
            Ratio { num: 2, den: 1 }
        } else {
            Ratio::zero()
        }
    } else {
        Ratio { num: recent as i128 - previous as i128, den: previous }
    };
    let fallback = if growth.positive() {
        Ratio { num: 1, den: 2 }
    } else {
        Ratio::zero()
    };
    let slopes = if n < 3 || latest.len() < 3 {
        Vec::new()
    } else {
        collect_slopes(&latest)
    };
    Trend { growth, fallback, slopes }
}

} // verus!
