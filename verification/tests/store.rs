use yt_point::config::PointsConfig;
use yt_point::points::PointState;
use yt_point::store::MetricsStore;

#[test]
fn fresh_store_is_zero() {
    let s = MetricsStore::new(PointsConfig::default());
    let snap = s.snapshot();
    assert_eq!(snap.points, PointState::default());
    assert_eq!(snap.metrics.superchat_amount, 0);
    assert_eq!(snap.metrics.current_subscribers, 0);
}

#[test]
fn tips_accumulate() {
    let mut s = MetricsStore::new(PointsConfig::default());
    s.apply_tip(250);
    s.apply_tip(250);
    let snap = s.snapshot();
    assert_eq!(snap.metrics.superchat_amount, 500);
    assert_eq!(snap.points.superchat, 5);
    assert_eq!(snap.points.total, 5);
}

#[test]
fn poll_overwrites_polled_fields() {
    let mut s = MetricsStore::new(PointsConfig::default());
    s.begin_session(200, 30, 1000);
    s.apply_poll(340, 56, 1003);
    let snap = s.snapshot();
    assert_eq!(snap.metrics.concurrent_viewers, 340);
    assert_eq!(snap.metrics.like_count, 56);
    assert_eq!(snap.metrics.initial_subscribers, 1000);
    assert_eq!(snap.metrics.current_subscribers, 1003);
    assert_eq!(snap.points.concurrent, 3);
    assert_eq!(snap.points.likes, 5);
    assert_eq!(snap.points.subscribers, 3);
    assert_eq!(snap.points.total, 11);
}

#[test]
fn manual_survives_polls_and_feeds_total() {
    let mut s = MetricsStore::new(PointsConfig::default());
    s.add_manual(10);
    s.apply_poll(100, 0, 0);
    let snap = s.snapshot();
    assert_eq!(snap.points.manual, 10);
    assert_eq!(snap.points.concurrent, 1);
    assert_eq!(snap.points.total, 11);
}

#[test]
fn total_is_sum_of_displayed_components() {
    let mut s = MetricsStore::new(PointsConfig {
        superchat_rate: 100,
        concurrent_rate: 100,
        like_rate: 10,
        subscriber_rate: 1,
    });
    s.begin_session(340, 56, 1000);
    s.apply_tip(250);
    s.apply_poll(340, 56, 1003);
    s.add_manual(4);
    let p = s.snapshot().points;
    assert_eq!(p.total, p.superchat + p.concurrent + p.likes + p.subscribers + p.manual);
    assert_eq!(p.total, 2 + 3 + 5 + 3 + 4);
}

#[test]
fn reset_keeps_baseline_and_clears_manual() {
    let mut s = MetricsStore::new(PointsConfig::default());
    s.begin_session(340, 56, 1000);
    s.apply_tip(250);
    s.add_manual(9);
    s.reset(true);
    let snap = s.snapshot();
    assert_eq!(snap.points, PointState::default());
    assert_eq!(snap.metrics.superchat_amount, 0);
    assert_eq!(snap.metrics.initial_subscribers, 1000);
    assert_eq!(snap.metrics.current_subscribers, 1000);
    // A later poll reporting an unchanged subscriber count earns no
    // subscriber points.
    s.apply_poll(0, 0, 1000);
    assert_eq!(s.snapshot().points.subscribers, 0);
    assert_eq!(s.snapshot().points.total, 0);
}

#[test]
fn reset_without_baseline_zeroes_everything() {
    let mut s = MetricsStore::new(PointsConfig::default());
    s.begin_session(340, 56, 1000);
    s.reset(false);
    let snap = s.snapshot();
    assert_eq!(snap.metrics.initial_subscribers, 0);
    assert_eq!(snap.metrics.current_subscribers, 0);
    assert_eq!(snap.points, PointState::default());
}

#[test]
fn overflow_guards_detect_impossible_counters() {
    let s = MetricsStore::new(PointsConfig {
        superchat_rate: 1,
        concurrent_rate: 1,
        like_rate: 1,
        subscriber_rate: 1,
    });
    assert!(!s.can_apply_poll(i64::MAX, i64::MAX, 0));
    assert!(s.can_apply_poll(10, 10, 10));
    assert!(s.can_apply_tip(i64::MAX));
    assert!(!s.can_begin_session(i64::MAX, i64::MAX, 0));
}
