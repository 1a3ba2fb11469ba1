//! Reduction of the two input buffers to statistics, the category profile
//! of the events, and the merge of both sources.

use std::collections::HashSet;
use vstd::prelude::*;
use crate::histogram::{amount_total, histogram_of, Histogram, Sample, MAX_TOTAL};
use crate::period::PeriodType;
use crate::ratio::Ratio;
use crate::records::{hour_bucket, hour_of, Category, Event, TimeWindow};
use crate::trend::{
    calculate_growth_and_momentum, lemma_trend_of_nothing, trend_of, Trend, TrendModel,
};

verus! {

broadcast use vstd::std_specs::hash::group_hash_axioms;

/// Statistics of the windows that overlap the active period.
#[derive(Clone, Debug, PartialEq, Eq)]
pub struct WindowStats {
    pub total_views: u128,
    pub unique_users: u128,
    pub trend: Trend,
}

pub struct WindowStatsModel {
    pub total_views: nat,
    pub unique_users: nat,
    pub trend: TrendModel,
}

impl View for WindowStats {
    type V = WindowStatsModel;

    open spec fn view(&self) -> WindowStatsModel {
        WindowStatsModel {
            total_views: self.total_views as nat,
            unique_users: self.unique_users as nat,
            trend: self.trend@,
        }
    }
}

impl WindowStatsModel {
    pub open spec fn zero() -> WindowStatsModel {
        WindowStatsModel { total_views: 0, unique_users: 0, trend: TrendModel::flat() }
    }

    /// The counts are sums over a buffer that fits in memory, and the
    /// trend is bounded.
    pub open spec fn wf(self) -> bool {
        self.total_views <= MAX_TOTAL && self.unique_users <= MAX_TOTAL && self.trend.bounded()
    }
}

/// Statistics of the events inside the active period.
///
/// The engagement of the period is the mean of `weighted` and of the
/// average engagement score of the events at the positions `scored`; it is
/// zero where `scored` is empty.
#[derive(Clone, Debug, PartialEq, Eq)]
pub struct EventStats {
    pub total_views: u128,
    pub unique_users: u128,
    pub trend: Trend,
    pub likes: u128,
    pub comments: u128,
    pub bookmarks: u128,
    pub weighted: Ratio,
    pub scored: Vec<usize>,
}

pub struct EventStatsModel {
    pub total_views: nat,
    pub unique_users: nat,
    pub trend: TrendModel,
    pub likes: nat,
    pub comments: nat,
    pub bookmarks: nat,
    pub weighted: Ratio,
    pub scored: Seq<usize>,
}

impl View for EventStats {
    type V = EventStatsModel;

    open spec fn view(&self) -> EventStatsModel {
        EventStatsModel {
            total_views: self.total_views as nat,
            unique_users: self.unique_users as nat,
            trend: self.trend@,
            likes: self.likes as nat,
            comments: self.comments as nat,
            bookmarks: self.bookmarks as nat,
            weighted: self.weighted,
            scored: self.scored@,
        }
    }
}

impl EventStatsModel {
    pub open spec fn zero() -> EventStatsModel {
        EventStatsModel {
            total_views: 0,
            unique_users: 0,
            trend: TrendModel::flat(),
            likes: 0,
            comments: 0,
            bookmarks: 0,
            weighted: Ratio::spec_zero(),
            scored: Seq::empty(),
        }
    }

    /// The counts are those of a buffer that fits in memory, the trend
    /// is bounded, and the weighted engagement is a fraction that is not
    /// negative.
    pub open spec fn wf(self) -> bool {
        &&& self.total_views <= MAX_TOTAL
        &&& self.unique_users <= MAX_TOTAL
        &&& self.trend.bounded()
        &&& self.weighted.wf()
        &&& self.weighted.num >= 0
    }
}

/// The share of each category among all buffered events, and the quality
/// factor `like_ratio + 2 * comment_ratio + 3 * bookmark_ratio`.
#[derive(Clone, Copy, Debug, PartialEq, Eq, Structural)]
pub struct EventWeights {
    pub like_ratio: Ratio,
    pub comment_ratio: Ratio,
    pub bookmark_ratio: Ratio,
    pub quality_factor: Ratio,
}

/// One sample per active window: its views, in the hour it starts in.
pub open spec fn window_samples(ws: Seq<TimeWindow>, period_start: u64, now: u64) -> Seq<Sample>
    decreases ws.len(),
{
    if ws.len() == 0 {
        Seq::empty()
    } else if ws.last().active(period_start, now) {
        window_samples(ws.drop_last(), period_start, now).push(
            Sample { hour: hour_of(ws.last().start_time), amount: ws.last().total_views },
        )
    } else {
        window_samples(ws.drop_last(), period_start, now)
    }
}

/// The windows that overlap `[period_start, now]`, in their order.
pub open spec fn active_windows(ws: Seq<TimeWindow>, period_start: u64, now: u64) -> Seq<
    TimeWindow,
>
    decreases ws.len(),
{
    if ws.len() == 0 {
        Seq::empty()
    } else if ws.last().active(period_start, now) {
        active_windows(ws.drop_last(), period_start, now).push(ws.last())
    } else {
        active_windows(ws.drop_last(), period_start, now)
    }
}

/// Sum of the unique-user counts of the active windows.
pub open spec fn users_total(ws: Seq<TimeWindow>, period_start: u64, now: u64) -> nat
    decreases ws.len(),
{
    if ws.len() == 0 {
        0
    } else {
        users_total(ws.drop_last(), period_start, now) + if ws.last().active(period_start, now) {
            ws.last().unique_users as nat
        } else {
            0
        }
    }
}

/// The summed user counts of `n` windows, scaled by `1 / (1 + 0.05 * n)`
/// to allow for users seen in several windows, and rounded down.
pub open spec fn corrected_users(raw: nat, n: nat) -> nat {
    (20 * raw) / (20 + n)
}

pub open spec fn window_stats_of(
    ws: Seq<TimeWindow>,
    period_start: u64,
    now: u64,
    period: PeriodType,
) -> WindowStatsModel {
    let samples = window_samples(ws, period_start, now);
    WindowStatsModel {
        total_views: amount_total(samples),
        unique_users: corrected_users(users_total(ws, period_start, now), samples.len()),
        trend: trend_of(histogram_of(samples), now, period),
    }
}

/// One sample of amount 1 per active event, in the hour it happened in.
pub open spec fn event_samples(es: Seq<Event>, period_start: u64, now: u64) -> Seq<Sample>
    decreases es.len(),
{
    if es.len() == 0 {
        Seq::empty()
    } else if es.last().active(period_start, now) {
        event_samples(es.drop_last(), period_start, now).push(
            Sample { hour: hour_of(es.last().timestamp), amount: 1 },
        )
    } else {
        event_samples(es.drop_last(), period_start, now)
    }
}

/// Positions of the active events, ascending.
pub open spec fn active_positions(es: Seq<Event>, period_start: u64, now: u64) -> Seq<usize>
    decreases es.len(),
{
    if es.len() == 0 {
        Seq::empty()
    } else if es.last().active(period_start, now) {
        active_positions(es.drop_last(), period_start, now).push((es.len() - 1) as usize)
    } else {
        active_positions(es.drop_last(), period_start, now)
    }
}

/// The users of the active events.
pub open spec fn active_users(es: Seq<Event>, period_start: u64, now: u64) -> Set<u32>
    decreases es.len(),
{
    if es.len() == 0 {
        Set::empty()
    } else if es.last().active(period_start, now) {
        active_users(es.drop_last(), period_start, now).insert(es.last().user_id)
    } else {
        active_users(es.drop_last(), period_start, now)
    }
}

/// Number of active events of category `c`.
pub open spec fn active_in_category(es: Seq<Event>, period_start: u64, now: u64, c: Category) -> nat
    decreases es.len(),
{
    if es.len() == 0 {
        0
    } else {
        active_in_category(es.drop_last(), period_start, now, c) + if es.last().active(
            period_start,
            now,
        ) && es.last().category == c {
            1nat
        } else {
            0
        }
    }
}

/// Number of events of category `c` in the whole buffer.
pub open spec fn in_category(es: Seq<Event>, c: Category) -> nat
    decreases es.len(),
{
    if es.len() == 0 {
        0
    } else {
        in_category(es.drop_last(), c) + if es.last().category == c {
            1nat
        } else {
            0
        }
    }
}

/// Likes count twice, comments three times and bookmarks five times, per
/// event counted (per one, where none is).
pub open spec fn weighted_engagement(likes: nat, comments: nat, bookmarks: nat, n: nat) -> Ratio {
    Ratio {
        num: (2 * likes + 3 * comments + 5 * bookmarks) as i128,
        den: (if n >= 1 { n } else { 1 }) as u128,
    }
}

pub open spec fn event_stats_of(
    es: Seq<Event>,
    period_start: u64,
    now: u64,
    period: PeriodType,
) -> EventStatsModel {
    let samples = event_samples(es, period_start, now);
    let likes = active_in_category(es, period_start, now, Category::Like);
    let comments = active_in_category(es, period_start, now, Category::Comment);
    let bookmarks = active_in_category(es, period_start, now, Category::Bookmark);
    EventStatsModel {
        total_views: samples.len(),
        unique_users: active_users(es, period_start, now).len(),
        trend: trend_of(histogram_of(samples), now, period),
        likes,
        comments,
        bookmarks,
        weighted: weighted_engagement(likes, comments, bookmarks, samples.len()),
        scored: active_positions(es, period_start, now),
    }
}

pub open spec fn event_weights_of(es: Seq<Event>) -> EventWeights {
    let likes = in_category(es, Category::Like);
    let comments = in_category(es, Category::Comment);
    let bookmarks = in_category(es, Category::Bookmark);
    if es.len() == 0 {
        EventWeights {
            like_ratio: Ratio::spec_zero(),
            comment_ratio: Ratio::spec_zero(),
            bookmark_ratio: Ratio::spec_zero(),
            quality_factor: Ratio::spec_zero(),
        }
    } else {
        EventWeights {
            like_ratio: Ratio { num: likes as i128, den: es.len() as u128 },
            comment_ratio: Ratio { num: comments as i128, den: es.len() as u128 },
            bookmark_ratio: Ratio { num: bookmarks as i128, den: es.len() as u128 },
            quality_factor: Ratio {
                num: (likes + 2 * comments + 3 * bookmarks) as i128,
                den: es.len() as u128,
            },
        }
    }
}

/// What is counted in a buffer is bounded by its length, and its users
/// are finitely many.
pub proof fn lemma_category_bounds(es: Seq<Event>, period_start: u64, now: u64, c: Category)
    ensures
        active_in_category(es, period_start, now, c) <= es.len(),
        in_category(es, c) <= es.len(),
        event_samples(es, period_start, now).len() <= es.len(),
        active_users(es, period_start, now).finite(),
        active_users(es, period_start, now).len() <= es.len(),
    decreases es.len(),
{
    if es.len() > 0 {
        lemma_category_bounds(es.drop_last(), period_start, now, c);
    }
}

/// The correction never raises the estimate.
pub proof fn lemma_correction_shrinks(raw: nat, n: nat)
    ensures
        corrected_users(raw, n) <= raw,
{
    assert((20 * raw) / (20 + n) <= raw) by (nonlinear_arith);
}

/// The statistics of a buffer are those of its active windows alone: a
/// window outside the period changes nothing, and every window inside it
/// counts.
pub proof fn lemma_only_active_windows_count(
    ws: Seq<TimeWindow>,
    period_start: u64,
    now: u64,
    period: PeriodType,
)
    ensures
        window_samples(active_windows(ws, period_start, now), period_start, now) == window_samples(
            ws,
            period_start,
            now,
        ),
        users_total(active_windows(ws, period_start, now), period_start, now) == users_total(
            ws,
            period_start,
            now,
        ),
        window_stats_of(active_windows(ws, period_start, now), period_start, now, period)
            == window_stats_of(ws, period_start, now, period),
    decreases ws.len(),
{
    if ws.len() > 0 {
        let rest = ws.drop_last();
        lemma_only_active_windows_count(rest, period_start, now, period);
        if ws.last().active(period_start, now) {
            let kept = active_windows(rest, period_start, now);
            assert(kept.push(ws.last()).drop_last() =~= kept);
        }
    }
}

/// Where no window overlaps the period, and so in particular for an empty
/// buffer, every statistic is zero.
pub proof fn lemma_no_active_windows(
    ws: Seq<TimeWindow>,
    period_start: u64,
    now: u64,
    period: PeriodType,
)
    requires
        forall|i: int| 0 <= i < ws.len() ==> !(#[trigger] ws[i]).active(period_start, now),
    ensures
        window_samples(ws, period_start, now) == Seq::<Sample>::empty(),
        users_total(ws, period_start, now) == 0,
        window_stats_of(ws, period_start, now, period) == WindowStatsModel::zero(),
    decreases ws.len(),
{
    if ws.len() > 0 {
        let rest = ws.drop_last();
        assert forall|i: int| 0 <= i < rest.len() implies !(#[trigger] rest[i]).active(
            period_start,
            now,
        ) by {
            assert(rest[i] == ws[i]);
        }
        assert(!ws[ws.len() - 1].active(period_start, now));
        lemma_no_active_windows(rest, period_start, now, period);
    }
    lemma_trend_of_nothing(now, period);
}

/// Where no event falls inside the period, and so in particular for an
/// empty buffer, every statistic is zero.
pub proof fn lemma_no_active_events(
    es: Seq<Event>,
    period_start: u64,
    now: u64,
    period: PeriodType,
)
    requires
        forall|i: int| 0 <= i < es.len() ==> !(#[trigger] es[i]).active(period_start, now),
    ensures
        event_samples(es, period_start, now) == Seq::<Sample>::empty(),
        active_positions(es, period_start, now) == Seq::<usize>::empty(),
        active_users(es, period_start, now) == Set::<u32>::empty(),
        forall|c: Category| #[trigger] active_in_category(es, period_start, now, c) == 0,
        event_stats_of(es, period_start, now, period) == EventStatsModel::zero(),
    decreases es.len(),
{
    if es.len() > 0 {
        let rest = es.drop_last();
        assert forall|i: int| 0 <= i < rest.len() implies !(#[trigger] rest[i]).active(
            period_start,
            now,
        ) by {
            assert(rest[i] == es[i]);
        }
        assert(!es[es.len() - 1].active(period_start, now));
        lemma_no_active_events(rest, period_start, now, period);
        assert forall|c: Category| #[trigger]
            active_in_category(es, period_start, now, c) == 0 by {
            assert(active_in_category(rest, period_start, now, c) == 0);
        }
    }
    lemma_trend_of_nothing(now, period);
    assert(Set::<u32>::empty().len() == 0);
}

/// With no event in the buffer every weight is zero.
pub proof fn lemma_no_events_no_weights()
    ensures
        event_weights_of(Seq::empty()) == (EventWeights {
            like_ratio: Ratio::spec_zero(),
            comment_ratio: Ratio::spec_zero(),
            bookmark_ratio: Ratio::spec_zero(),
            quality_factor: Ratio::spec_zero(),
        }),
{
}

/// Reduces the windows that overlap `[period_start, now]`.
pub fn calculate_from_windows(
    windows: &Vec<TimeWindow>,
    period_start: u64,
    now: u64,
    period: PeriodType,
) -> (stats: WindowStats)
    ensures
        stats@ == window_stats_of(windows@, period_start, now, period),
        stats@.wf(),
        (forall|i: int|
            0 <= i < windows@.len() ==> !(#[trigger] windows@[i]).active(period_start, now))
            ==> stats@ == WindowStatsModel::zero(),
{
    let n: usize = windows.len();
    let mut samples: Vec<Sample> = Vec::new();
    let mut views: u128 = 0;
    let mut users: u128 = 0;
    let mut i: usize = 0;
    while i < n
        invariant
            n == windows.len(),
            i <= n,
            samples@ == window_samples(windows@.take(i as int), period_start, now),
            samples@.len() <= i,
            views == amount_total(samples@),
            views <= i * 0xffff_ffff,
            users == users_total(windows@.take(i as int), period_start, now),
            users <= i * 0xffff_ffff,
        decreases n - i,
    {
        let w: TimeWindow = windows[i];
        proof {
            assert(windows@.take(i + 1).drop_last() =~= windows@.take(i as int));
        }
        if w.is_active(period_start, now) {
            let s = Sample { hour: hour_bucket(w.start_time), amount: w.total_views };
            proof {
                assert(samples@.push(s).drop_last() =~= samples@);
            }
            samples.push(s);
            views = views + w.total_views as u128;
            users = users + w.unique_users as u128;
        }
        i += 1;
    }
    proof {
        assert(windows@.take(n as int) =~= windows@);
        if forall|i: int|
            0 <= i < windows@.len() ==> !(#[trigger] windows@[i]).active(period_start, now) {
            lemma_no_active_windows(windows@, period_start, now, period);
        }
    }
    let hist = Histogram::from_samples(&samples);
    let trend = calculate_growth_and_momentum(&hist, now, period);
    let count: u128 = samples.len() as u128;
    let corrected: u128 = (20 * users) / (20 + count);
    proof {
        lemma_correction_shrinks(users as nat, count as nat);
    }
    WindowStats { total_views: views, unique_users: corrected, trend }
}

/// Reduces the events inside `[period_start, now]`.
pub fn process_recent_events(
    events: &Vec<Event>,
    period_start: u64,
    now: u64,
    period: PeriodType,
) -> (stats: EventStats)
    ensures
        stats@ == event_stats_of(events@, period_start, now, period),
        stats@.wf(),
        (forall|i: int|
            0 <= i < events@.len() ==> !(#[trigger] events@[i]).active(period_start, now))
            ==> stats@ == EventStatsModel::zero(),
{
    let n: usize = events.len();
    let mut samples: Vec<Sample> = Vec::new();
    let mut scored: Vec<usize> = Vec::new();
    let mut seen: HashSet<u32> = HashSet::new();
    let mut likes: u128 = 0;
    let mut comments: u128 = 0;
    let mut bookmarks: u128 = 0;
    let mut i: usize = 0;
    while i < n
        invariant
            n == events.len(),
            i <= n,
            samples@ == event_samples(events@.take(i as int), period_start, now),
            scored@ == active_positions(events@.take(i as int), period_start, now),
            seen@ == active_users(events@.take(i as int), period_start, now),
            likes == active_in_category(events@.take(i as int), period_start, now, Category::Like),
            comments == active_in_category(
                events@.take(i as int),
                period_start,
                now,
                Category::Comment,
            ),
            bookmarks == active_in_category(
                events@.take(i as int),
                period_start,
                now,
                Category::Bookmark,
            ),
            likes <= i,
            comments <= i,
            bookmarks <= i,
        decreases n - i,
    {
        let e: Event = events[i];
        proof {
            assert(events@.take(i + 1).drop_last() =~= events@.take(i as int));
        }
        if e.is_active(period_start, now) {
            samples.push(Sample { hour: hour_bucket(e.timestamp), amount: 1 });
            scored.push(i);
            seen.insert(e.user_id);
            match e.category {
                Category::Like => {
                    likes = likes + 1;
                },
                Category::Comment => {
                    comments = comments + 1;
                },
                Category::Bookmark => {
                    bookmarks = bookmarks + 1;
                },
                Category::Other => {},
            }
        }
        i += 1;
    }
    proof {
        assert(events@.take(n as int) =~= events@);
        lemma_category_bounds(events@, period_start, now, Category::Like);
        if forall|i: int|
            0 <= i < events@.len() ==> !(#[trigger] events@[i]).active(period_start, now) {
            lemma_no_active_events(events@, period_start, now, period);
        }
    }
    let hist = Histogram::from_samples(&samples);
    let trend = calculate_growth_and_momentum(&hist, now, period);
    let count: usize = samples.len();
    let den: u128 = if count >= 1 { count as u128 } else { 1 };
    let weighted = Ratio { num: (2 * likes + 3 * comments + 5 * bookmarks) as i128, den };
    EventStats {
        total_views: count as u128,
        unique_users: seen.len() as u128,
        trend,
        likes,
        comments,
        bookmarks,
        weighted,
        scored,
    }
}

/// Profiles the categories of every buffered event, whatever its time.
pub fn analyze_event_distribution(events: &Vec<Event>) -> (w: EventWeights)
    ensures
        w == event_weights_of(events@),
        events@.len() == 0 ==> w.quality_factor == Ratio::spec_zero() && w.like_ratio
            == Ratio::spec_zero() && w.comment_ratio == Ratio::spec_zero() && w.bookmark_ratio
            == Ratio::spec_zero(),
        w.like_ratio.wf() && w.comment_ratio.wf() && w.bookmark_ratio.wf() && w.quality_factor.wf(),
        w.quality_factor.num >= 0,
        w.quality_factor.at_most(3),
{
    let n: usize = events.len();
    if n == 0 {
        return EventWeights {
            like_ratio: Ratio::zero(),
            comment_ratio: Ratio::zero(),
            bookmark_ratio: Ratio::zero(),
            quality_factor: Ratio::zero(),
        };
    }
    let mut likes: u128 = 0;
    let mut comments: u128 = 0;
    let mut bookmarks: u128 = 0;
    let mut i: usize = 0;
    while i < n
        invariant
            n == events.len(),
            i <= n,
            likes == in_category(events@.take(i as int), Category::Like),
            comments == in_category(events@.take(i as int), Category::Comment),
            bookmarks == in_category(events@.take(i as int), Category::Bookmark),
            likes + comments + bookmarks <= i,
        decreases n - i,
    {
        proof {
            assert(events@.take(i + 1).drop_last() =~= events@.take(i as int));
        }
        match events[i].category {
            Category::Like => {
                likes = likes + 1;
            },
            Category::Comment => {
                comments = comments + 1;
            },
            Category::Bookmark => {
                bookmarks = bookmarks + 1;
            },
            Category::Other => {},
        }
        i += 1;
    }
    proof {
        assert(events@.take(n as int) =~= events@);
    }
    let total: u128 = n as u128;
    EventWeights {
        like_ratio: Ratio { num: likes as i128, den: total },
        comment_ratio: Ratio { num: comments as i128, den: total },
        bookmark_ratio: Ratio { num: bookmarks as i128, den: total },
        quality_factor: Ratio { num: (likes + 2 * comments + 3 * bookmarks) as i128, den: total },
    }
}

} // verus!
