use trend_calculator::aggregate::{
    analyze_event_distribution, calculate_from_windows, process_recent_events, EventStats,
    EventWeights, WindowStats,
};
use trend_calculator::combine::combine_stats;
use trend_calculator::decay::{apply_time_decay, freshness_boost, last_activity, Decay};
use trend_calculator::period::{PeriodType, HOUR_MS};
use trend_calculator::ratio::Ratio;
use trend_calculator::records::{Category, Event, TimeWindow};
use trend_calculator::trend::{Slope, Trend};

const NOW: u64 = 1_700_000_000_000;

fn window(start_time: u64, end_time: u64, unique_users: u32, total_views: u32) -> TimeWindow {
    TimeWindow { start_time, end_time, unique_users, total_views }
}

fn event(timestamp: u64, user_id: u32, category: Category) -> Event {
    Event { timestamp, user_id, category }
}

fn flat() -> Trend {
    Trend { growth: Ratio { num: 0, den: 1 }, fallback: Ratio { num: 0, den: 1 }, slopes: vec![] }
}

#[test]
fn no_windows_give_zero_stats() {
    let start = PeriodType::Daily.period_start(NOW);
    for p in [PeriodType::Daily, PeriodType::Weekly, PeriodType::Monthly, PeriodType::Yearly] {
        let s = calculate_from_windows(&vec![], start, NOW, p);
        assert_eq!(s, WindowStats { total_views: 0, unique_users: 0, trend: flat() });
    }
}

#[test]
fn windows_outside_the_period_give_zero_stats() {
    let start = NOW - 1000;
    let ws = vec![window(0, start - 1, 9, 9), window(NOW + 1, NOW + 5, 9, 9)];
    let s = calculate_from_windows(&ws, start, NOW, PeriodType::Daily);
    assert_eq!(s, WindowStats { total_views: 0, unique_users: 0, trend: flat() });
}

#[test]
fn windows_are_summed_and_users_corrected() {
    let start = NOW - 86_400_000;
    let ws = vec![window(NOW - 2 * HOUR_MS, NOW - HOUR_MS, 21, 100)];
    let s = calculate_from_windows(&ws, start, NOW, PeriodType::Daily);
    assert_eq!(s.total_views, 100);
    // 21 / 1.05
    assert_eq!(s.unique_users, 20);
    assert_eq!(s.trend.growth, Ratio { num: 2, den: 1 });
    assert_eq!(s.trend.fallback, Ratio { num: 1, den: 2 });
}

#[test]
fn user_correction_rounds_down() {
    let start = NOW - 86_400_000;
    let ws = vec![
        window(NOW - 3 * HOUR_MS, NOW, 10, 1),
        window(NOW - 2 * HOUR_MS, NOW, 10, 2),
        window(NOW - HOUR_MS, NOW, 11, 3),
        window(0, 5, 1000, 1000),
    ];
    let s = calculate_from_windows(&ws, start, NOW, PeriodType::Daily);
    assert_eq!(s.total_views, 6);
    // 31 / 1.15 = 26.95...
    assert_eq!(s.unique_users, 26);
    assert_eq!(s.trend.slopes, vec![Slope { prev: 1, cur: 2 }, Slope { prev: 2, cur: 3 }]);
}

#[test]
fn window_views_fall_in_the_hour_the_window_starts_in() {
    let now = 100 * HOUR_MS;
    let ws = vec![
        window(95 * HOUR_MS + 7, 100 * HOUR_MS, 0, 4),
        window(95 * HOUR_MS + 9, 99 * HOUR_MS, 0, 6),
        window(99 * HOUR_MS, 99 * HOUR_MS, 0, 30),
    ];
    let s = calculate_from_windows(&ws, 0, now, PeriodType::Daily);
    assert_eq!(s.total_views, 40);
    assert_eq!(s.trend.growth, Ratio { num: 20, den: 10 });
}

#[test]
fn window_sums_do_not_wrap() {
    let ws = vec![window(NOW, NOW, u32::MAX, u32::MAX), window(NOW, NOW, u32::MAX, u32::MAX)];
    let s = calculate_from_windows(&ws, 0, NOW, PeriodType::Daily);
    assert_eq!(s.total_views, 2 * (u32::MAX as u128));
    assert_eq!(s.unique_users, 20 * 2 * (u32::MAX as u128) / 22);
}

#[test]
fn no_events_give_zero_stats() {
    let start = PeriodType::Daily.period_start(NOW);
    let s = process_recent_events(&vec![], start, NOW, PeriodType::Daily);
    assert_eq!(
        s,
        EventStats {
            total_views: 0,
            unique_users: 0,
            trend: flat(),
            likes: 0,
            comments: 0,
            bookmarks: 0,
            weighted: Ratio { num: 0, den: 1 },
            scored: vec![],
        }
    );
}

#[test]
fn no_events_give_zero_weights() {
    let zero = Ratio { num: 0, den: 1 };
    assert_eq!(
        analyze_event_distribution(&vec![]),
        EventWeights {
            like_ratio: zero,
            comment_ratio: zero,
            bookmark_ratio: zero,
            quality_factor: zero,
        }
    );
}

#[test]
fn events_are_filtered_counted_and_weighted() {
    let start = NOW - 86_400_000;
    let es = vec![
        event(start - 1, 1, Category::Bookmark),
        event(start, 2, Category::Like),
        event(NOW - 10, 2, Category::Comment),
        event(NOW + 1, 3, Category::Like),
        event(NOW, 4, Category::Bookmark),
        event(NOW - 20, 2, Category::Other),
        event(NOW - 30, 4, Category::Like),
    ];
    let s = process_recent_events(&es, start, NOW, PeriodType::Daily);
    assert_eq!(s.total_views, 5);
    assert_eq!(s.unique_users, 2);
    assert_eq!(s.likes, 2);
    assert_eq!(s.comments, 1);
    assert_eq!(s.bookmarks, 1);
    assert_eq!(s.weighted, Ratio { num: 2 * 2 + 3 + 5, den: 5 });
    assert_eq!(s.scored, vec![1, 2, 4, 5, 6]);
}

#[test]
fn events_build_an_hourly_trend() {
    let now = 100 * HOUR_MS + 10;
    let mut es = Vec::new();
    for (hour, n) in [(94u64, 2u32), (98, 1), (99, 3), (100, 2)] {
        for k in 0..n {
            es.push(event(hour * HOUR_MS + k as u64, k, Category::Other));
        }
    }
    let s = process_recent_events(&es, 0, now, PeriodType::Daily);
    assert_eq!(s.total_views, 8);
    assert_eq!(s.unique_users, 3);
    assert_eq!(s.trend.growth, Ratio { num: 4, den: 2 });
    assert_eq!(s.trend.slopes, vec![Slope { prev: 1, cur: 3 }, Slope { prev: 3, cur: 2 }]);
    assert_eq!(s.weighted, Ratio { num: 0, den: 8 });
}

#[test]
fn distribution_covers_the_whole_buffer() {
    let es = vec![
        event(0, 1, Category::Like),
        event(u64::MAX, 1, Category::Comment),
        event(5, 1, Category::Bookmark),
        event(6, 1, Category::Bookmark),
        event(7, 1, Category::Other),
    ];
    let w = analyze_event_distribution(&es);
    assert_eq!(w.like_ratio, Ratio { num: 1, den: 5 });
    assert_eq!(w.comment_ratio, Ratio { num: 1, den: 5 });
    assert_eq!(w.bookmark_ratio, Ratio { num: 2, den: 5 });
    assert_eq!(w.quality_factor, Ratio { num: 1 + 2 + 6, den: 5 });
}

fn window_stats(total_views: u128, unique_users: u128, growth: Ratio) -> WindowStats {
    WindowStats {
        total_views,
        unique_users,
        trend: Trend { growth, fallback: Ratio { num: 0, den: 1 }, slopes: vec![] },
    }
}

fn event_stats(total_views: u128, unique_users: u128, growth: Ratio) -> EventStats {
    EventStats {
        total_views,
        unique_users,
        trend: Trend {
            growth,
            fallback: Ratio { num: 0, den: 1 },
            slopes: vec![Slope { prev: 1, cur: 2 }],
        },
        likes: 1,
        comments: 0,
        bookmarks: 0,
        weighted: Ratio { num: 2, den: 3 },
        scored: vec![0, 2, 3],
    }
}

#[test]
fn combining_empty_sources_still_counts_two_users() {
    let zero = Ratio { num: 0, den: 1 };
    let c = combine_stats(window_stats(0, 0, zero), event_stats(0, 0, zero));
    assert_eq!(c.total_views, 0);
    assert_eq!(c.unique_users, 2);
    assert_eq!(c.growth, zero);
}

#[test]
fn combining_rounds_the_user_estimate() {
    let zero = Ratio { num: 0, den: 1 };
    // 0.75 * 10 + 0.75 * 5 = 11.25
    assert_eq!(combine_stats(window_stats(1, 10, zero), event_stats(1, 5, zero)).unique_users, 11);
    // 0.75 * 10 + 0.75 * 4 = 10.5
    assert_eq!(combine_stats(window_stats(1, 10, zero), event_stats(1, 4, zero)).unique_users, 11);
    // 0.75 * 10 + 0.75 * 3 = 9.75
    assert_eq!(combine_stats(window_stats(1, 10, zero), event_stats(1, 3, zero)).unique_users, 10);
    // 0.75 * 10 + 0.75 * 2 = 9
    assert_eq!(combine_stats(window_stats(1, 10, zero), event_stats(1, 2, zero)).unique_users, 9);
    // 0.75 * 1 + 0.75 * 1 = 1.5
    assert_eq!(combine_stats(window_stats(1, 0, zero), event_stats(1, 1, zero)).unique_users, 2);
}

#[test]
fn combining_prefers_the_growth_of_the_events() {
    let zero = Ratio { num: 0, den: 1 };
    let wg = Ratio { num: 3, den: 4 };
    let eg = Ratio { num: -1, den: 4 };
    let c = combine_stats(window_stats(7, 1, wg), event_stats(5, 1, eg));
    assert_eq!(c.growth, eg);
    assert_eq!(c.total_views, 12);
    assert_eq!(c.weighted, Ratio { num: 2, den: 3 });
    assert_eq!(c.scored, vec![0, 2, 3]);
    assert_eq!(c.event_trend.slopes, vec![Slope { prev: 1, cur: 2 }]);
    assert!(c.window_trend.slopes.is_empty());
    let c = combine_stats(window_stats(7, 1, wg), event_stats(5, 1, zero));
    assert_eq!(c.growth, wg);
    let c = combine_stats(window_stats(7, 1, wg), event_stats(5, 1, Ratio { num: 0, den: 9 }));
    assert_eq!(c.growth, wg);
}

#[test]
fn last_activity_is_the_latest_event() {
    assert_eq!(last_activity(&vec![], 77), 77);
    let es = vec![
        event(5, 1, Category::Other),
        event(900, 1, Category::Other),
        event(30, 1, Category::Other),
    ];
    assert_eq!(last_activity(&es, 77), 900);
    assert_eq!(last_activity(&vec![event(3, 1, Category::Like)], 77), 3);
}

#[test]
fn freshness_is_half_the_share_left_of_the_period() {
    assert_eq!(freshness_boost(0, 100), Ratio { num: 100, den: 200 });
    assert_eq!(freshness_boost(25, 100), Ratio { num: 75, den: 200 });
    assert_eq!(freshness_boost(100, 100), Ratio { num: 0, den: 200 });
    assert_eq!(freshness_boost(500, 100), Ratio { num: 0, den: 200 });
    assert_eq!(freshness_boost(0, 0), Ratio { num: 0, den: 1 });
    assert_eq!(freshness_boost(9, 0), Ratio { num: 0, den: 1 });
    assert_eq!(
        freshness_boost(1, u64::MAX),
        Ratio { num: (u64::MAX - 1) as i128, den: 2 * (u64::MAX as u128) }
    );
}

#[test]
fn decay_of_an_empty_buffer_is_fresh() {
    let start = NOW - 86_400_000;
    let d = apply_time_decay(&vec![], start, NOW, PeriodType::Daily);
    assert_eq!(
        d,
        Decay {
            elapsed_ms: 0,
            rate: Ratio { num: 100, den: 1000 },
            freshness_boost: Ratio { num: 86_400_000, den: 172_800_000 },
        }
    );
}

#[test]
fn decay_measures_from_the_latest_event() {
    let start = NOW - 31_536_000_000;
    let es = vec![
        event(NOW - 3 * HOUR_MS, 1, Category::Other),
        event(NOW - 2 * HOUR_MS, 1, Category::Other),
        event(NOW - 9 * HOUR_MS, 1, Category::Other),
    ];
    let d = apply_time_decay(&es, start, NOW, PeriodType::Yearly);
    assert_eq!(d.elapsed_ms, 2 * HOUR_MS);
    assert_eq!(d.rate, Ratio { num: 10, den: 1000 });
    assert_eq!(
        d.freshness_boost,
        Ratio { num: (31_536_000_000 - 2 * HOUR_MS) as i128, den: 63_072_000_000 }
    );
}

#[test]
fn decay_of_a_later_event_is_no_time_at_all() {
    let es = vec![event(NOW + 5, 1, Category::Other)];
    let d = apply_time_decay(&es, NOW - 10, NOW, PeriodType::Weekly);
    assert_eq!(d.elapsed_ms, 0);
    assert_eq!(d.rate, Ratio { num: 50, den: 1000 });
    assert_eq!(d.freshness_boost, Ratio { num: 10, den: 20 });
}
