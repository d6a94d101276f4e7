use yt_point::config::PointsConfig;
use yt_point::points::PointState;
use yt_point::points::RawMetrics;

fn rates(tip: i64, viewers: i64, likes: i64, subs: i64) -> PointsConfig {
    PointsConfig {
        superchat_rate: tip,
        concurrent_rate: viewers,
        like_rate: likes,
        subscriber_rate: subs,
    }
}

#[test]
fn scenario_breakdown_components_and_total() {
    let config = rates(100, 100, 10, 1);
    let metrics = RawMetrics {
        superchat_amount: 250,
        concurrent_viewers: 340,
        like_count: 56,
        initial_subscribers: 1000,
        current_subscribers: 1003,
    };
    let p = PointState::calculate_from_metrics(&metrics, &config);
    assert_eq!(p.superchat, 2);
    assert_eq!(p.concurrent, 3);
    assert_eq!(p.likes, 5);
    assert_eq!(p.subscribers, 3);
    assert_eq!(p.manual, 0);
    assert_eq!(p.visitor, 0);
    assert_eq!(p.total, 13);
}

#[test]
fn zero_metrics_zero_points() {
    let config = PointsConfig::default();
    let metrics = RawMetrics::default();
    let p = PointState::calculate_from_metrics(&metrics, &config);
    assert_eq!(p.total, 0);
    assert_eq!(p, PointState::default());
}

#[test]
fn division_truncates_toward_zero_for_lost_subscribers() {
    let config = rates(100, 100, 10, 2);
    let metrics = RawMetrics {
        superchat_amount: 199,
        concurrent_viewers: 0,
        like_count: 0,
        initial_subscribers: 1000,
        current_subscribers: 997,
    };
    let p = PointState::calculate_from_metrics(&metrics, &config);
    assert_eq!(p.superchat, 1);
    // -3 / 2 truncates toward zero, to -1, not down to -2.
    assert_eq!(p.subscribers, -1);
    assert_eq!(p.total, 0);
}

#[test]
fn default_rates() {
    let config = PointsConfig::default();
    assert_eq!(config.superchat_rate, 100);
    assert_eq!(config.concurrent_rate, 100);
    assert_eq!(config.like_rate, 10);
    assert_eq!(config.subscriber_rate, 1);
}

#[test]
fn add_manual_moves_manual_and_total_only() {
    let config = rates(100, 100, 10, 1);
    let metrics = RawMetrics {
        superchat_amount: 300,
        concurrent_viewers: 0,
        like_count: 0,
        initial_subscribers: 0,
        current_subscribers: 0,
    };
    let mut p = PointState::calculate_from_metrics(&metrics, &config);
    assert_eq!(p.total, 3);
    p.add_manual(10);
    assert_eq!(p.manual, 10);
    assert_eq!(p.total, 13);
    assert_eq!(p.superchat, 3);
}

#[test]
fn manual_additions_are_additive() {
    let mut twice = PointState::default();
    twice.add_manual(7);
    twice.add_manual(5);
    let mut once = PointState::default();
    once.add_manual(12);
    assert_eq!(twice, once);
    assert_eq!(twice.total, 12);
    assert_eq!(twice.manual, 12);

    let mut negative = PointState::default();
    negative.add_manual(7);
    negative.add_manual(-9);
    assert_eq!(negative.total, -2);
    assert_eq!(negative.manual, -2);
}
