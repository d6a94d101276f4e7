use yt_point::fanout::Cursor;
use yt_point::fanout::Fanout;
use yt_point::fanout::PointsPayload;
use yt_point::points::PointState;
use yt_point::points::RawMetrics;

fn snap(total: i64) -> PointsPayload {
    let mut points = PointState::default();
    points.add_manual(total);
    PointsPayload { points, metrics: RawMetrics::default() }
}

#[test]
fn last_known_slot_always_holds_the_newest_snapshot() {
    let mut f = Fanout::new(4);
    assert!(f.last_known().is_none());
    f.publish(snap(1));
    f.publish(snap(2));
    assert_eq!(f.last_known().unwrap().points.total, 2);
}

#[test]
fn a_reader_in_step_sees_every_snapshot() {
    let mut f = Fanout::new(4);
    let c0 = f.subscribe();
    f.publish(snap(10));
    f.publish(snap(20));
    let (s1, c1) = f.recv(c0).unwrap();
    let (s2, c2) = f.recv(c1).unwrap();
    assert_eq!(s1.points.total, 10);
    assert_eq!(s2.points.total, 20);
    assert!(f.recv(c2).is_none());
}

#[test]
fn a_new_subscription_starts_at_the_head() {
    let mut f = Fanout::new(4);
    f.publish(snap(1));
    let c = f.subscribe();
    assert!(f.recv(c).is_none());
    f.publish(snap(2));
    let (s, _) = f.recv(c).unwrap();
    assert_eq!(s.points.total, 2);
}

#[test]
fn publishing_past_a_stalled_reader_never_blocks() {
    let mut f = Fanout::new(3);
    let stalled: Cursor = f.subscribe();
    // Publish far beyond the bound while the reader never reads: every
    // publish succeeds.
    for i in 0..10 {
        f.publish(snap(i));
    }
    // The stalled reader is overtaken: it resumes at the oldest retained
    // snapshot, at most the bound behind the head.
    let (s, c) = f.recv(stalled).unwrap();
    assert_eq!(s.points.total, 7);
    let (s2, c2) = f.recv(c).unwrap();
    assert_eq!(s2.points.total, 8);
    let (s3, c3) = f.recv(c2).unwrap();
    assert_eq!(s3.points.total, 9);
    assert!(f.recv(c3).is_none());
}
