//! The three scoring strategies. Each reduces its input to the exact
//! ingredients of the score; the caller evaluates the exponential, the
//! logarithm and the final rounding.

use vstd::prelude::*;
use crate::aggregate::{
    active_windows, analyze_event_distribution, calculate_from_windows, event_stats_of,
    event_weights_of, lemma_only_active_windows_count, process_recent_events, window_stats_of,
    EventWeights,
};
use crate::combine::{combine_stats, combined_of, CombinedModel, CombinedStats};
use crate::decay::{apply_time_decay, decay_of, elapsed_between, Decay};
use crate::histogram::MAX_TOTAL;
use crate::period::{PeriodType, ScoreWeights, HOUR_MS};
use crate::ratio::Ratio;
use crate::records::{Event, TimeWindow};

verus! {

/// The tie-breaking multiplier of an item, in thousandths.
pub open spec fn jitter_of(item_id: u32) -> u32 {
    (950 + item_id % 100) as u32
}

/// The jitter of an item: 0.950 for identifiers that end in 00, up to
/// 1.049 for those that end in 99.
pub fn jitter_permille(item_id: u32) -> (j: u32)
    ensures
        j == jitter_of(item_id),
        950 <= j <= 1049,
{
    950 + item_id % 100
}

/// The jitter depends on the item's identifier through its last two
/// decimal digits alone, and the jitters of any two items differ by a
/// factor of at most 1.05 / 0.95.
pub proof fn lemma_jitter(a: u32, b: u32)
    ensures
        a % 100 == b % 100 ==> jitter_of(a) == jitter_of(b),
        jitter_of(a) == jitter_of(a % 100),
        jitter_of(a) * 950 <= jitter_of(b) * 1050,
{
}

/// Growth limited to `[-1, 2]` and shifted to `[0, 3]`.
pub open spec fn normalized_growth(g: Ratio) -> Ratio {
    if g.num > 2 * g.den {
        Ratio { num: 3, den: 1 }
    } else {
        Ratio { num: (g.num + g.den) as i128, den: g.den }
    }
}

/// Brings a growth rate, which is never below -1, to the scale from 0 to 3
/// on which it is weighted.
pub fn normalize_growth(g: Ratio) -> (r: Ratio)
    requires
        g.wf(),
        g.at_least(-1),
        g.num <= 2 * MAX_TOTAL,
        g.den <= 2 * MAX_TOTAL,
    ensures
        r == normalized_growth(g),
        r.wf(),
        r.at_least(0),
        r.at_most(3),
{
    if g.num > 2 * (g.den as i128) {
        Ratio { num: 3, den: 1 }
    } else {
        Ratio { num: g.num + g.den as i128, den: g.den }
    }
}

/// What the full pipeline derives from the two buffers.
///
/// With `w` the weights as fractions (`weights` holds them in tenths),
/// `m` the momentum and `e` the engagement of `stats`, and `q` the quality
/// factor of `event_weights`, the score is
/// `(0.1 * views * w.view + users * w.unique + normalized_growth * 100 *
/// w.growth + (m + 1) * 50 * w.momentum + e * 3 * 50 * w.momentum) *
/// (1 + q / 2)`, times the decay factor, times the jitter, rounded to two
/// decimals.
#[derive(Clone, Debug, PartialEq, Eq)]
pub struct FullPlan {
    pub stats: CombinedStats,
    pub normalized_growth: Ratio,
    pub event_weights: EventWeights,
    pub weights: ScoreWeights,
    pub decay: Decay,
    pub jitter_permille: u32,
}

pub struct FullPlanModel {
    pub stats: CombinedModel,
    pub normalized_growth: Ratio,
    pub event_weights: EventWeights,
    pub weights: ScoreWeights,
    pub decay: Decay,
    pub jitter_permille: u32,
}

impl View for FullPlan {
    type V = FullPlanModel;

    open spec fn view(&self) -> FullPlanModel {
        FullPlanModel {
            stats: self.stats@,
            normalized_growth: self.normalized_growth,
            event_weights: self.event_weights,
            weights: self.weights,
            decay: self.decay,
            jitter_permille: self.jitter_permille,
        }
    }
}

/// Counters summarized outside, with their increase since the last
/// ranking. The two increase rates are measured real numbers and stay with
/// the caller.
#[derive(Clone, Copy, Debug, PartialEq, Eq, Structural)]
pub struct DirectCounters {
    pub view_increase: u32,
    pub unique_users: u32,
    pub like_increase: u32,
    pub bookmark_count: u32,
    pub comment_increase: u32,
    pub total_views_all_time: u32,
    pub total_unique_users_all_time: u32,
    pub last_updated: u64,
}

/// What the direct strategy derives from its counters.
///
/// With `a` the current increase rate over the previous one (the latter
/// no smaller than 0.01), the momentum factor is
/// `min(5, log10(a + 1) * momentum_weight)` and the score is
/// `base_score * exp(-decay_rate * elapsed_ms / 3_600_000) *
/// (1 + momentum factor) * diversity_factor`, times the jitter, rounded to
/// two decimals.
#[derive(Clone, Copy, Debug, PartialEq, Eq, Structural)]
pub struct DirectPlan {
    pub base_score: u64,
    pub elapsed_ms: u64,
    pub decay_rate: Ratio,
    pub momentum_weight: Ratio,
    pub diversity_factor: Ratio,
    pub jitter_permille: u32,
}

/// Counters whose user figure comes from an approximate distinct count.
/// The views per hour are a measured real number and stay with the caller.
#[derive(Clone, Copy, Debug, PartialEq, Eq, Structural)]
pub struct ApproxCounters {
    pub unique_users: u32,
    pub view_count: u32,
    pub previous_view_count: u32,
    pub like_count: u32,
    pub comment_count: u32,
    pub bookmark_count: u32,
    pub last_activity_time: u64,
}

/// What the approximate-count strategy derives from its counters.
///
/// With `w` the weights as fractions (`weights` holds them in tenths) and
/// `m = min(2, log10(views per hour) / 2)` (zero where there are no views
/// per hour), the score is
/// `0.1 * view_count * w.view + unique_users * w.unique + normalized_growth
/// * 100 * w.growth + (m + 1) * 50 * w.momentum + engagement * 3 * 50 *
/// w.momentum`, times `exp(-decay_rate * elapsed_hours)` for the whole
/// hours elapsed, times the jitter, rounded to two decimals.
#[derive(Clone, Copy, Debug, PartialEq, Eq, Structural)]
pub struct ApproxPlan {
    pub view_count: u32,
    pub unique_users: u32,
    pub growth: Ratio,
    pub normalized_growth: Ratio,
    pub engagement: Ratio,
    pub weights: ScoreWeights,
    pub elapsed_hours: u64,
    pub decay_rate: Ratio,
    pub jitter_permille: u32,
}

pub open spec fn full_plan_of(
    ws: Seq<TimeWindow>,
    es: Seq<Event>,
    period: PeriodType,
    item_id: u32,
    now: u64,
) -> FullPlanModel {
    let start = period.spec_period_start(now) as u64;
    let stats = combined_of(
        window_stats_of(ws, start, now, period),
        event_stats_of(es, start, now, period),
    );
    FullPlanModel {
        stats,
        normalized_growth: normalized_growth(stats.growth),
        event_weights: event_weights_of(es),
        weights: period.spec_weights(),
        decay: decay_of(es, start, now, period),
        jitter_permille: jitter_of(item_id),
    }
}

/// Views count once, likes three times, bookmarks five times and comments
/// twice.
pub open spec fn direct_base_score(c: DirectCounters) -> int {
    c.view_increase + 3 * c.like_increase + 5 * c.bookmark_count + 2 * c.comment_increase
}

/// One plus the lifetime share of unique users among the views, that share
/// weighted by `tenths / 10`; one where there are no views.
pub open spec fn diversity_factor_of(users: u32, views: u32, tenths: int) -> Ratio {
    if views == 0 {
        Ratio { num: 1, den: 1 }
    } else {
        Ratio { num: (10 * views + tenths * users) as i128, den: (10 * views) as u128 }
    }
}

pub open spec fn direct_plan_of(
    c: DirectCounters,
    period: PeriodType,
    item_id: u32,
    now: u64,
) -> DirectPlan {
    DirectPlan {
        base_score: direct_base_score(c) as u64,
        elapsed_ms: elapsed_between(c.last_updated, now),
        decay_rate: Ratio { num: period.spec_decay_permille() as i128, den: 1000 },
        momentum_weight: Ratio { num: period.spec_momentum_tenths() as i128, den: 10 },
        diversity_factor: diversity_factor_of(
            c.total_unique_users_all_time,
            c.total_views_all_time,
            period.spec_diversity_tenths(),
        ),
        jitter_permille: jitter_of(item_id),
    }
}

/// Relative change of the views; 1 where there were none before.
pub open spec fn approx_growth(views: u32, previous: u32) -> Ratio {
    if previous > 0 {
        Ratio { num: (views - previous) as i128, den: previous as u128 }
    } else {
        Ratio { num: 1, den: 1 }
    }
}

/// Likes count twice, comments three times and bookmarks five times, per
/// view; zero where there are no views.
pub open spec fn approx_engagement(c: ApproxCounters) -> Ratio {
    if c.view_count > 0 {
        Ratio {
            num: (2 * c.like_count + 3 * c.comment_count + 5 * c.bookmark_count) as i128,
            den: c.view_count as u128,
        }
    } else {
        Ratio::spec_zero()
    }
}

pub open spec fn approx_plan_of(
    c: ApproxCounters,
    period: PeriodType,
    item_id: u32,
    now: u64,
) -> ApproxPlan {
    let growth = approx_growth(c.view_count, c.previous_view_count);
    ApproxPlan {
        view_count: c.view_count,
        unique_users: c.unique_users,
        growth,
        normalized_growth: normalized_growth(growth),
        engagement: approx_engagement(c),
        weights: period.spec_weights(),
        elapsed_hours: elapsed_between(c.last_activity_time, now) / HOUR_MS,
        decay_rate: Ratio { num: period.spec_decay_permille() as i128, den: 1000 },
        jitter_permille: jitter_of(item_id),
    }
}

/// The full pipeline reads the window buffer through the period boundary
/// alone: its plan is the plan of the windows that overlap the period, and
/// every one of those counts.
pub proof fn lemma_plan_reads_active_windows(
    ws: Seq<TimeWindow>,
    es: Seq<Event>,
    period: PeriodType,
    item_id: u32,
    now: u64,
)
    ensures
        full_plan_of(ws, es, period, item_id, now) == full_plan_of(
            active_windows(ws, period.spec_period_start(now) as u64, now),
            es,
            period,
            item_id,
            now,
        ),
{
    lemma_only_active_windows_count(ws, period.spec_period_start(now) as u64, now, period);
}

/// Two items whose identifiers end in the same two decimal digits, scored
/// on the same buffers for the same period at the same instant, have the
/// same plan.
pub proof fn lemma_plan_depends_on_last_digits(
    ws: Seq<TimeWindow>,
    es: Seq<Event>,
    period: PeriodType,
    a: u32,
    b: u32,
    now: u64,
)
    requires
        a % 100 == b % 100,
    ensures
        full_plan_of(ws, es, period, a, now) == full_plan_of(ws, es, period, b, now),
{
}

/// The direct strategy on counters already read.
pub fn direct_plan(c: DirectCounters, period: PeriodType, item_id: u32, now: u64) -> (p: DirectPlan)
    ensures
        p == direct_plan_of(c, period, item_id, now),
        p.decay_rate.wf() && p.momentum_weight.wf() && p.diversity_factor.wf(),
        p.diversity_factor.at_least(1),
{
    let views: u64 = c.view_increase as u64;
    let likes: u64 = c.like_increase as u64;
    let bookmarks: u64 = c.bookmark_count as u64;
    let comments: u64 = c.comment_increase as u64;
    let base: u64 = views + 3 * likes + 5 * bookmarks + 2 * comments;
    let elapsed: u64 = if now >= c.last_updated { now - c.last_updated } else { 0 };
    let tenths: i128 = period.diversity_weight().num;
    let diversity = if c.total_views_all_time == 0 {
        Ratio { num: 1, den: 1 }
    } else {
        let views = c.total_views_all_time as i128;
        let users = c.total_unique_users_all_time as i128;
        Ratio { num: 10 * views + tenths * users, den: 10 * (c.total_views_all_time as u128) }
    };
    DirectPlan {
        base_score: base,
        elapsed_ms: elapsed,
        decay_rate: period.decay_rate(),
        momentum_weight: period.momentum_weight(),
        diversity_factor: diversity,
        jitter_permille: jitter_permille(item_id),
    }
}

/// The approximate-count strategy on counters already read.
pub fn approx_plan(c: ApproxCounters, period: PeriodType, item_id: u32, now: u64) -> (p: ApproxPlan)
    ensures
        p == approx_plan_of(c, period, item_id, now),
        p.growth.wf() && p.growth.at_least(-1),
        p.normalized_growth.wf() && p.normalized_growth.at_least(0) && p.normalized_growth.at_most(
            3,
        ),
        p.engagement.wf() && p.engagement.num >= 0,
{
    let growth = if c.previous_view_count > 0 {
        Ratio {
            num: c.view_count as i128 - c.previous_view_count as i128,
            den: c.previous_view_count as u128,
        }
    } else {
        Ratio { num: 1, den: 1 }
    };
    let engagement = if c.view_count > 0 {
        let likes = c.like_count as i128;
        let comments = c.comment_count as i128;
        let bookmarks = c.bookmark_count as i128;
        Ratio { num: 2 * likes + 3 * comments + 5 * bookmarks, den: c.view_count as u128 }
    } else {
        Ratio::zero()
    };
    let elapsed: u64 = if now >= c.last_activity_time { now - c.last_activity_time } else { 0 };
    ApproxPlan {
        view_count: c.view_count,
        unique_users: c.unique_users,
        growth,
        normalized_growth: normalize_growth(growth),
        engagement,
        weights: period.weights(),
        elapsed_hours: elapsed / HOUR_MS,
        decay_rate: period.decay_rate(),
        jitter_permille: jitter_permille(item_id),
    }
}

/// A scoring instance: one item, one period, and the two buffers it was
/// last given.
#[derive(Clone, Debug, PartialEq, Eq)]
pub struct TrendCalculator {
    pub windows: Vec<TimeWindow>,
    pub events: Vec<Event>,
    pub period: PeriodType,
    pub item_id: u32,
}

impl TrendCalculator {
    /// An instance with empty buffers. A period code other than 1, 2 or 3
    /// selects the daily period.
    pub fn new(item_id: u32, period_code: u8) -> (c: TrendCalculator)
        ensures
            c.item_id == item_id,
            c.period == PeriodType::spec_from_code(period_code),
            c.windows@.len() == 0,
            c.events@.len() == 0,
    {
        TrendCalculator {
            windows: Vec::new(),
            events: Vec::new(),
            period: PeriodType::from_code(period_code),
            item_id,
        }
    }

    /// Replaces the window buffer by the windows read, and keeps it as it
    /// is where none could be read.
    pub fn set_aggregated_windows(&mut self, parsed: Option<Vec<TimeWindow>>)
        ensures
            final(self).windows@ == (match parsed {
                Some(w) => w@,
                None => old(self).windows@,
            }),
            final(self).events@ == old(self).events@,
            final(self).period == old(self).period,
            final(self).item_id == old(self).item_id,
    {
        if let Some(w) = parsed {
            self.windows = w;
        }
    }

    /// Replaces the event buffer by the events read, and keeps it as it is
    /// where none could be read.
    pub fn set_recent_events(&mut self, parsed: Option<Vec<Event>>)
        ensures
            final(self).events@ == (match parsed {
                Some(e) => e@,
                None => old(self).events@,
            }),
            final(self).windows@ == old(self).windows@,
            final(self).period == old(self).period,
            final(self).item_id == old(self).item_id,
    {
        if let Some(e) = parsed {
            self.events = e;
        }
    }

    /// Runs the full pipeline on the two buffers as they stand at `now`.
    pub fn calculate_trend_score(&self, now: u64) -> (plan: FullPlan)
        ensures
            plan@ == full_plan_of(self.windows@, self.events@, self.period, self.item_id, now),
            plan@.stats.wf(),
            plan.decay.wf(),
            plan.normalized_growth.wf(),
            plan.normalized_growth.at_least(0),
            plan.normalized_growth.at_most(3),
    {
        let start: u64 = self.period.period_start(now);
        let window_stats = calculate_from_windows(&self.windows, start, now, self.period);
        let event_stats = process_recent_events(&self.events, start, now, self.period);
        let stats = combine_stats(window_stats, event_stats);
        let normalized = normalize_growth(stats.growth);
        FullPlan {
            stats,
            normalized_growth: normalized,
            event_weights: analyze_event_distribution(&self.events),
            weights: self.period.weights(),
            decay: apply_time_decay(&self.events, start, now, self.period),
            jitter_permille: jitter_permille(self.item_id),
        }
    }

    /// Runs the direct strategy; counters that could not be read give no
    /// plan.
    pub fn calculate_trending_score_direct(
        &self,
        parsed: Option<DirectCounters>,
        now: u64,
    ) -> (plan: Option<DirectPlan>)
        ensures
            plan == (match parsed {
                Some(c) => Some(direct_plan_of(c, self.period, self.item_id, now)),
                None => None,
            }),
    {
        match parsed {
            Some(c) => Some(direct_plan(c, self.period, self.item_id, now)),
            None => None,
        }
    }

    /// Runs the approximate-count strategy; counters that could not be
    /// read give no plan.
    pub fn calculate_with_redis_hll_data(
        &self,
        parsed: Option<ApproxCounters>,
        now: u64,
    ) -> (plan: Option<ApproxPlan>)
        ensures
            plan == (match parsed {
                Some(c) => Some(approx_plan_of(c, self.period, self.item_id, now)),
                None => None,
            }),
    {
        match parsed {
            Some(c) => Some(approx_plan(c, self.period, self.item_id, now)),
            None => None,
        }
    }
}

} // verus!
