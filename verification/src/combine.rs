//! Merge of the window statistics and the event statistics.

use vstd::prelude::*;
use crate::aggregate::{EventStats, EventStatsModel, WindowStats, WindowStatsModel};
use crate::histogram::MAX_TOTAL;
use crate::ratio::Ratio;
use crate::trend::{Trend, TrendModel};

verus! {

/// The statistics of both sources together.
///
/// Momentum is that of `event_trend` unless it evaluates to zero, and
/// that of `window_trend` then. Engagement comes from the events alone:
/// `weighted` and `scored` are theirs.
#[derive(Clone, Debug, PartialEq, Eq)]
pub struct CombinedStats {
    pub total_views: u128,
    pub unique_users: u128,
    pub growth: Ratio,
    pub event_trend: Trend,
    pub window_trend: Trend,
    pub weighted: Ratio,
    pub scored: Vec<usize>,
}

pub struct CombinedModel {
    pub total_views: nat,
    pub unique_users: nat,
    pub growth: Ratio,
    pub event_trend: TrendModel,
    pub window_trend: TrendModel,
    pub weighted: Ratio,
    pub scored: Seq<usize>,
}

impl View for CombinedStats {
    type V = CombinedModel;

    open spec fn view(&self) -> CombinedModel {
        CombinedModel {
            total_views: self.total_views as nat,
            unique_users: self.unique_users as nat,
            growth: self.growth,
            event_trend: self.event_trend@,
            window_trend: self.window_trend@,
            weighted: self.weighted,
            scored: self.scored@,
        }
    }
}

pub open spec fn at_least_one(n: nat) -> nat {
    if n >= 1 {
        n
    } else {
        1
    }
}

/// Three quarters of each source's users, no source counting for less than
/// one user, rounded to the nearest whole number with halves rounded up.
pub open spec fn combined_users(window_users: nat, event_users: nat) -> nat {
    (3 * (at_least_one(window_users) + at_least_one(event_users)) + 2) / 4
}

/// The events' growth where it is not zero, the windows' growth else.
pub open spec fn combined_growth(window_growth: Ratio, event_growth: Ratio) -> Ratio {
    if !event_growth.is_zero() {
        event_growth
    } else {
        window_growth
    }
}

pub open spec fn combined_of(w: WindowStatsModel, e: EventStatsModel) -> CombinedModel {
    CombinedModel {
        total_views: w.total_views + e.total_views,
        unique_users: combined_users(w.unique_users, e.unique_users),
        growth: combined_growth(w.trend.growth, e.trend.growth),
        event_trend: e.trend,
        window_trend: w.trend,
        weighted: e.weighted,
        scored: e.scored,
    }
}

impl CombinedModel {
    /// What holds of every merge of well-formed statistics. The user
    /// estimate is never below 2, because each source counts for at least
    /// one user even where it saw none.
    pub open spec fn wf(self) -> bool {
        &&& self.total_views <= 2 * MAX_TOTAL
        &&& 2 <= self.unique_users <= 2 * MAX_TOTAL
        &&& self.growth.wf()
        &&& self.growth.at_least(-1)
        &&& self.event_trend.bounded()
        &&& self.window_trend.bounded()
        &&& self.weighted.wf()
        &&& self.weighted.num >= 0
    }
}

/// Merges the statistics of the two sources.
pub fn combine_stats(window: WindowStats, events: EventStats) -> (c: CombinedStats)
    requires
        window@.wf(),
        events@.wf(),
    ensures
        c@ == combined_of(window@, events@),
        c@.wf(),
{
    let wu: u128 = if window.unique_users >= 1 { window.unique_users } else { 1 };
    let eu: u128 = if events.unique_users >= 1 { events.unique_users } else { 1 };
    let growth = if events.trend.growth.num != 0 {
        events.trend.growth
    } else {
        window.trend.growth
    };
    CombinedStats {
        total_views: window.total_views + events.total_views,
        unique_users: (3 * (wu + eu) + 2) / 4,
        growth,
        event_trend: events.trend,
        window_trend: window.trend,
        weighted: events.weighted,
        scored: events.scored,
    }
}

} // verus!
