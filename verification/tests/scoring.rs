use trend_calculator::aggregate::{calculate_from_windows, process_recent_events, EventWeights};
use trend_calculator::combine::combine_stats;
use trend_calculator::period::{PeriodType, ScoreWeights, HOUR_MS};
use trend_calculator::ratio::Ratio;
use trend_calculator::records::{Category, Event, TimeWindow};
use trend_calculator::scoring::{
    approx_plan, direct_plan, ApproxCounters, DirectCounters, TrendCalculator,
};

const NOW: u64 = 1_700_000_000_000;

fn direct_counters() -> DirectCounters {
    DirectCounters {
        view_increase: 100,
        unique_users: 40,
        like_increase: 10,
        bookmark_count: 5,
        comment_increase: 2,
        total_views_all_time: 0,
        total_unique_users_all_time: 0,
        last_updated: NOW,
    }
}

fn approx_counters() -> ApproxCounters {
    ApproxCounters {
        unique_users: 30,
        view_count: 200,
        previous_view_count: 100,
        like_count: 10,
        comment_count: 4,
        bookmark_count: 2,
        last_activity_time: NOW - 5 * HOUR_MS - 1,
    }
}

#[test]
fn new_calculator_has_empty_buffers() {
    let c = TrendCalculator::new(42, 2);
    assert_eq!(c.item_id, 42);
    assert_eq!(c.period, PeriodType::Monthly);
    assert!(c.windows.is_empty());
    assert!(c.events.is_empty());
    assert_eq!(TrendCalculator::new(1, 17).period, PeriodType::Daily);
}

#[test]
fn one_like_just_now() {
    let mut c = TrendCalculator::new(7, 0);
    c.set_recent_events(Some(vec![Event {
        timestamp: NOW - 1000,
        user_id: 7,
        category: Category::Like,
    }]));
    let plan = c.calculate_trend_score(NOW);
    assert_eq!(plan.stats.unique_users, 2);
    assert_eq!(plan.stats.growth, Ratio { num: 2, den: 1 });
    assert!(plan.stats.event_trend.slopes.is_empty());
    assert_eq!(plan.stats.event_trend.fallback, Ratio { num: 1, den: 2 });
    assert_eq!(plan.stats.total_views, 1);
    assert_eq!(plan.stats.weighted, Ratio { num: 2, den: 1 });
    assert_eq!(plan.stats.scored, vec![0]);
    assert_eq!(plan.normalized_growth, Ratio { num: 3, den: 1 });
    let one = Ratio { num: 1, den: 1 };
    let none = Ratio { num: 0, den: 1 };
    assert_eq!(
        plan.event_weights,
        EventWeights {
            like_ratio: one,
            comment_ratio: none,
            bookmark_ratio: none,
            quality_factor: one,
        }
    );
    assert_eq!(plan.weights, ScoreWeights { view: 4, unique: 3, growth: 2, momentum: 1 });
    assert_eq!(plan.decay.elapsed_ms, 1000);
    assert_eq!(plan.decay.rate, Ratio { num: 100, den: 1000 });
    assert_eq!(plan.decay.freshness_boost, Ratio { num: 86_399_000, den: 172_800_000 });
    assert_eq!(plan.jitter_permille, 957);
}

#[test]
fn empty_calculator_scores_the_floor() {
    let c = TrendCalculator::new(100, 1);
    let plan = c.calculate_trend_score(NOW);
    assert_eq!(plan.stats.total_views, 0);
    assert_eq!(plan.stats.unique_users, 2);
    assert_eq!(plan.stats.growth, Ratio { num: 0, den: 1 });
    assert_eq!(plan.stats.event_trend.fallback, Ratio { num: 0, den: 1 });
    assert_eq!(plan.stats.window_trend.fallback, Ratio { num: 0, den: 1 });
    assert_eq!(plan.stats.weighted, Ratio { num: 0, den: 1 });
    assert!(plan.stats.scored.is_empty());
    assert_eq!(plan.normalized_growth, Ratio { num: 1, den: 1 });
    assert_eq!(plan.event_weights.quality_factor, Ratio { num: 0, den: 1 });
    assert_eq!(plan.decay.elapsed_ms, 0);
    assert_eq!(plan.jitter_permille, 950);
}

#[test]
fn set_windows_is_read_back_by_the_next_score() {
    let start = PeriodType::Weekly.period_start(NOW);
    let ws = vec![
        TimeWindow { start_time: 0, end_time: start - 1, unique_users: 500, total_views: 900 },
        TimeWindow { start_time: start - 5, end_time: start, unique_users: 10, total_views: 20 },
        TimeWindow { start_time: NOW - 5, end_time: NOW + 5, unique_users: 11, total_views: 30 },
        TimeWindow { start_time: NOW + 1, end_time: NOW + 5, unique_users: 500, total_views: 900 },
    ];
    let mut c = TrendCalculator::new(3, 1);
    c.set_aggregated_windows(Some(ws.clone()));
    assert_eq!(c.windows, ws);
    let plan = c.calculate_trend_score(NOW);
    assert_eq!(plan.stats.total_views, 50);
    // 21 / 1.1 = 19.09..., then 0.75 * 19 + 0.75 * 1 = 15
    assert_eq!(plan.stats.unique_users, 15);
    let inside = vec![ws[1], ws[2]];
    let by_parts = combine_stats(
        calculate_from_windows(&inside, start, NOW, PeriodType::Weekly),
        process_recent_events(&vec![], start, NOW, PeriodType::Weekly),
    );
    assert_eq!(plan.stats, by_parts);
}

#[test]
fn set_replaces_the_buffer_whole() {
    let w1 = TimeWindow { start_time: NOW, end_time: NOW, unique_users: 1, total_views: 10 };
    let w2 = TimeWindow { start_time: NOW, end_time: NOW, unique_users: 1, total_views: 7 };
    let mut c = TrendCalculator::new(3, 0);
    c.set_aggregated_windows(Some(vec![w1]));
    c.set_aggregated_windows(Some(vec![w2]));
    assert_eq!(c.windows, vec![w2]);
    assert_eq!(c.calculate_trend_score(NOW).stats.total_views, 7);
    let e = Event { timestamp: NOW, user_id: 1, category: Category::Other };
    c.set_recent_events(Some(vec![e, e]));
    c.set_recent_events(Some(vec![e]));
    assert_eq!(c.events, vec![e]);
    assert_eq!(c.windows, vec![w2]);
    assert_eq!(c.calculate_trend_score(NOW).stats.total_views, 8);
}

#[test]
fn unreadable_input_leaves_the_buffers_alone() {
    let w = TimeWindow { start_time: NOW, end_time: NOW, unique_users: 1, total_views: 10 };
    let e = Event { timestamp: NOW, user_id: 1, category: Category::Comment };
    let mut c = TrendCalculator::new(3, 0);
    c.set_aggregated_windows(Some(vec![w]));
    c.set_recent_events(Some(vec![e]));
    let before = c.clone();
    c.set_aggregated_windows(None);
    c.set_recent_events(None);
    assert_eq!(c, before);
    assert_eq!(c.calculate_trend_score(NOW), before.calculate_trend_score(NOW));
}

#[test]
fn unreadable_counters_give_no_plan() {
    let c = TrendCalculator::new(3, 0);
    assert_eq!(c.calculate_trending_score_direct(None, NOW), None);
    assert_eq!(c.calculate_with_redis_hll_data(None, NOW), None);
    assert!(c.windows.is_empty() && c.events.is_empty());
}

#[test]
fn scoring_twice_gives_the_same_plan() {
    let mut c = TrendCalculator::new(31, 2);
    let early = NOW - 9 * HOUR_MS;
    let late = NOW - 2 * HOUR_MS;
    c.set_aggregated_windows(Some(vec![
        TimeWindow { start_time: early, end_time: NOW, unique_users: 4, total_views: 9 },
        TimeWindow { start_time: late, end_time: NOW, unique_users: 3, total_views: 5 },
    ]));
    c.set_recent_events(Some(vec![
        Event { timestamp: NOW - 50, user_id: 2, category: Category::Bookmark },
        Event { timestamp: NOW - 70, user_id: 9, category: Category::Like },
    ]));
    assert_eq!(c.calculate_trend_score(NOW), c.calculate_trend_score(NOW));
    let twin = TrendCalculator::new(131, 2);
    let mut twin = TrendCalculator { windows: c.windows.clone(), events: c.events.clone(), ..twin };
    twin.set_recent_events(None);
    let a = c.calculate_trend_score(NOW);
    let mut b = twin.calculate_trend_score(NOW);
    assert_eq!(a.jitter_permille, b.jitter_permille);
    b.jitter_permille = a.jitter_permille;
    assert_eq!(a, b);
    assert_eq!(
        c.calculate_trending_score_direct(Some(direct_counters()), NOW),
        c.calculate_trending_score_direct(Some(direct_counters()), NOW)
    );
    assert_eq!(
        c.calculate_with_redis_hll_data(Some(approx_counters()), NOW),
        c.calculate_with_redis_hll_data(Some(approx_counters()), NOW)
    );
}

#[test]
fn direct_counters_golden_values() {
    let c = TrendCalculator::new(5, 0);
    let plan = c.calculate_trending_score_direct(Some(direct_counters()), NOW).unwrap();
    assert_eq!(plan.base_score, 159);
    assert_eq!(plan.elapsed_ms, 0);
    assert_eq!(plan.decay_rate, Ratio { num: 100, den: 1000 });
    assert_eq!(plan.momentum_weight, Ratio { num: 20, den: 10 });
    assert_eq!(plan.diversity_factor, Ratio { num: 1, den: 1 });
    assert_eq!(plan.jitter_permille, 955);
    // base * exp(0) * (1 + log10(2) * 2) * 1 * 0.955, to two decimals
    let momentum_factor = (2.0f64.log10() * plan.momentum_weight.num as f64
        / plan.momentum_weight.den as f64)
        .min(5.0);
    let score = plan.base_score as f64 * (1.0 + momentum_factor) * plan.jitter_permille as f64
        / 1000.0;
    assert_eq!((score * 100.0).round() / 100.0, 243.26);
}

#[test]
fn direct_counters_by_period() {
    let counters = DirectCounters {
        total_views_all_time: 200,
        total_unique_users_all_time: 50,
        last_updated: NOW - 7_200_000,
        ..direct_counters()
    };
    let daily = direct_plan(counters, PeriodType::Daily, 1, NOW);
    assert_eq!(daily.elapsed_ms, 7_200_000);
    assert_eq!(daily.diversity_factor, Ratio { num: 2000 + 15 * 50, den: 2000 });
    let weekly = direct_plan(counters, PeriodType::Weekly, 1, NOW);
    assert_eq!(weekly.decay_rate, Ratio { num: 50, den: 1000 });
    assert_eq!(weekly.momentum_weight, Ratio { num: 15, den: 10 });
    assert_eq!(weekly.diversity_factor, Ratio { num: 2000 + 18 * 50, den: 2000 });
    let monthly = direct_plan(counters, PeriodType::Monthly, 1, NOW);
    assert_eq!(monthly.diversity_factor, Ratio { num: 2000 + 20 * 50, den: 2000 });
    let yearly = direct_plan(counters, PeriodType::Yearly, 1, NOW);
    assert_eq!(yearly.decay_rate, Ratio { num: 5, den: 1000 });
    assert_eq!(yearly.momentum_weight, Ratio { num: 5, den: 10 });
    assert_eq!(yearly.diversity_factor, Ratio { num: 2000 + 25 * 50, den: 2000 });
    assert_eq!(yearly.base_score, 159);
}

#[test]
fn direct_counters_at_their_limits() {
    let counters = DirectCounters {
        view_increase: u32::MAX,
        unique_users: u32::MAX,
        like_increase: u32::MAX,
        bookmark_count: u32::MAX,
        comment_increase: u32::MAX,
        total_views_all_time: u32::MAX,
        total_unique_users_all_time: u32::MAX,
        last_updated: NOW + 1,
    };
    let plan = direct_plan(counters, PeriodType::Yearly, u32::MAX, NOW);
    assert_eq!(plan.base_score, 11 * (u32::MAX as u64));
    assert_eq!(plan.elapsed_ms, 0);
    assert_eq!(
        plan.diversity_factor,
        Ratio { num: 35 * (u32::MAX as i128), den: 10 * (u32::MAX as u128) }
    );
}

#[test]
fn approx_counters_exact_values() {
    let c = TrendCalculator::new(250, 3);
    let plan = c.calculate_with_redis_hll_data(Some(approx_counters()), NOW).unwrap();
    assert_eq!(plan.view_count, 200);
    assert_eq!(plan.unique_users, 30);
    assert_eq!(plan.growth, Ratio { num: 100, den: 100 });
    assert_eq!(plan.normalized_growth, Ratio { num: 200, den: 100 });
    assert_eq!(plan.engagement, Ratio { num: 20 + 12 + 10, den: 200 });
    assert_eq!(plan.weights, ScoreWeights { view: 1, unique: 3, growth: 5, momentum: 1 });
    assert_eq!(plan.elapsed_hours, 5);
    assert_eq!(plan.decay_rate, Ratio { num: 5, den: 1000 });
    assert_eq!(plan.jitter_permille, 1000);
}

#[test]
fn approx_counters_without_a_baseline() {
    let counters = ApproxCounters { previous_view_count: 0, view_count: 0, ..approx_counters() };
    let plan = approx_plan(counters, PeriodType::Daily, 0, NOW);
    assert_eq!(plan.growth, Ratio { num: 1, den: 1 });
    assert_eq!(plan.normalized_growth, Ratio { num: 2, den: 1 });
    assert_eq!(plan.engagement, Ratio { num: 0, den: 1 });
}

#[test]
fn approx_growth_is_limited_from_above_only_when_normalized() {
    let counters = ApproxCounters { previous_view_count: 10, view_count: 45, ..approx_counters() };
    let plan = approx_plan(counters, PeriodType::Daily, 0, NOW);
    assert_eq!(plan.growth, Ratio { num: 35, den: 10 });
    assert_eq!(plan.normalized_growth, Ratio { num: 3, den: 1 });
    let counters = ApproxCounters { previous_view_count: 10, view_count: 0, ..approx_counters() };
    let plan = approx_plan(counters, PeriodType::Daily, 0, NOW);
    assert_eq!(plan.growth, Ratio { num: -10, den: 10 });
    assert_eq!(plan.normalized_growth, Ratio { num: 0, den: 10 });
    let counters = ApproxCounters { last_activity_time: NOW + 9, ..approx_counters() };
    assert_eq!(approx_plan(counters, PeriodType::Daily, 0, NOW).elapsed_hours, 0);
}
