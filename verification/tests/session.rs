use yt_point::config::PointsConfig;
use yt_point::session::Effect;
use yt_point::session::Session;
use yt_point::session::SessionError;

fn started_session() -> Session {
    let mut s = Session::new(PointsConfig::default());
    s.start("https://www.youtube.com/watch?v=dQw4w9WgXcQ").unwrap();
    let effects = s.worker_spawned(None, 0);
    assert_eq!(effects, vec![Effect::Send("{\"id\":1,\"method\":\"init\"}".to_owned())]);

    let effects = s.handle_line("{\"id\":1,\"result\":{\"authenticated\":false}}", 1);
    assert_eq!(
        effects,
        vec![Effect::Send(
            "{\"id\":2,\"method\":\"getLiveInfo\",\"params\":{\"videoId\":\"dQw4w9WgXcQ\"}}"
                .to_owned()
        )]
    );

    let live = "{\"id\":2,\"result\":{\"videoId\":\"dQw4w9WgXcQ\",\"title\":\"t\",\
        \"channelId\":\"UC123\",\"channelName\":\"c\",\"concurrentViewers\":340,\
        \"likeCount\":56,\"isLive\":true}}";
    let effects = s.handle_line(live, 2);
    assert_eq!(
        effects,
        vec![Effect::Send(
            "{\"id\":3,\"method\":\"getSubscriberCount\",\"params\":{\"channelId\":\"UC123\"}}"
                .to_owned()
        )]
    );

    let effects = s.handle_line("{\"id\":3,\"result\":{\"count\":1000}}", 3);
    assert_eq!(
        effects,
        vec![Effect::Send(
            "{\"id\":4,\"method\":\"startLiveChat\",\"params\":{\"videoId\":\"dQw4w9WgXcQ\"}}"
                .to_owned()
        )]
    );

    let effects = s.handle_line("{\"id\":4,\"result\":null}", 4);
    assert_eq!(effects.len(), 2);
    assert_eq!(effects[0], Effect::SessionStarted);
    match &effects[1] {
        Effect::Publish(snap) => {
            assert_eq!(snap.points.concurrent, 3);
            assert_eq!(snap.points.likes, 5);
            assert_eq!(snap.points.subscribers, 0);
            assert_eq!(snap.points.total, 8);
            assert_eq!(snap.metrics.initial_subscribers, 1000);
        },
        other => panic!("unexpected effect: {:?}", other),
    }
    assert!(s.is_active());
    s
}

#[test]
fn a_full_session_start_conversation() {
    started_session();
}

#[test]
fn only_one_session_at_a_time() {
    let mut s = started_session();
    assert_eq!(
        s.start("https://www.youtube.com/watch?v=dQw4w9WgXcQ").unwrap_err(),
        SessionError::AlreadyActive
    );
}

#[test]
fn malformed_references_do_not_start_a_session() {
    let mut s = Session::new(PointsConfig::default());
    assert_eq!(s.start("nonsense").unwrap_err(), SessionError::InvalidInput);
    assert!(!s.is_active());
}

#[test]
fn stopping_an_idle_session_is_an_error() {
    let mut s = Session::new(PointsConfig::default());
    assert_eq!(s.stop(0).unwrap_err(), SessionError::NotActive);
}

#[test]
fn a_stream_that_is_not_live_aborts_the_start() {
    let mut s = Session::new(PointsConfig::default());
    s.start("dQw4w9WgXcQ").unwrap();
    s.worker_spawned(None, 0);
    s.handle_line("{\"id\":1,\"result\":{\"authenticated\":false}}", 1);
    let live = "{\"id\":2,\"result\":{\"videoId\":\"dQw4w9WgXcQ\",\"title\":\"t\",\
        \"channelId\":\"UC123\",\"channelName\":\"c\",\"concurrentViewers\":1,\
        \"isLive\":false}}";
    let effects = s.handle_line(live, 2);
    assert_eq!(
        effects,
        vec![
            Effect::SessionFailed(SessionError::InvalidInput),
            Effect::KillWorker,
        ]
    );
    assert!(!s.is_active());
}

#[test]
fn tips_feed_the_score_while_active() {
    let mut s = started_session();
    let tip = "{\"event\":{\"type\":\"superchat\",\"data\":{\"id\":\"t1\",\
        \"author\":\"alice\",\"amount\":250,\"currency\":\"JPY\",\
        \"message\":\"hi\",\"timestamp\":12}}}";
    let effects = s.handle_line(tip, 5);
    assert_eq!(effects.len(), 2);
    match &effects[0] {
        Effect::Tip(ev) => {
            assert_eq!(ev.author, "alice");
            assert_eq!(ev.amount, 250);
        },
        other => panic!("unexpected effect: {:?}", other),
    }
    match &effects[1] {
        Effect::Publish(snap) => {
            assert_eq!(snap.points.superchat, 2);
            assert_eq!(snap.points.total, 10);
        },
        other => panic!("unexpected effect: {:?}", other),
    }
}

#[test]
fn unknown_push_kinds_and_garbage_are_dropped() {
    let mut s = started_session();
    let before = s.get_current_state();
    assert_eq!(s.handle_line("{\"event\":{\"type\":\"confetti\",\"data\":{}}}", 5), vec![]);
    assert_eq!(s.handle_line("### not json ###", 5), vec![]);
    assert_eq!(s.handle_line("{\"id\":999,\"result\":4}", 5), vec![]);
    assert_eq!(s.get_current_state(), before);
    assert!(s.is_active());
}

#[test]
fn a_poll_round_updates_the_score() {
    let mut s = started_session();
    let effects = s.poll_tick(10);
    assert_eq!(
        effects,
        vec![Effect::Send(
            "{\"id\":5,\"method\":\"getLiveInfo\",\"params\":{\"videoId\":\"dQw4w9WgXcQ\"}}"
                .to_owned()
        )]
    );
    // A second tick while the round is in flight does nothing.
    assert_eq!(s.poll_tick(11), vec![]);

    let live = "{\"id\":5,\"result\":{\"videoId\":\"dQw4w9WgXcQ\",\"title\":\"t\",\
        \"channelId\":\"UC123\",\"channelName\":\"c\",\"concurrentViewers\":100,\
        \"likeCount\":10,\"isLive\":true}}";
    let effects = s.handle_line(live, 12);
    assert_eq!(
        effects,
        vec![Effect::Send(
            "{\"id\":6,\"method\":\"getSubscriberCount\",\"params\":{\"channelId\":\"UC123\"}}"
                .to_owned()
        )]
    );
    let effects = s.handle_line("{\"id\":6,\"result\":{\"count\":1003}}", 13);
    assert_eq!(effects.len(), 1);
    match &effects[0] {
        Effect::Publish(snap) => {
            assert_eq!(snap.points.concurrent, 1);
            assert_eq!(snap.points.likes, 1);
            assert_eq!(snap.points.subscribers, 3);
            assert_eq!(snap.points.total, 5);
        },
        other => panic!("unexpected effect: {:?}", other),
    }
}

#[test]
fn a_failed_poll_is_absorbed_and_the_loop_goes_on() {
    let mut s = started_session();
    s.poll_tick(10);
    let effects = s.handle_line("{\"id\":5,\"error\":\"scrape failed\"}", 11);
    assert_eq!(effects, vec![]);
    assert!(s.is_active());
    // The next tick polls again.
    let effects = s.poll_tick(20);
    assert_eq!(effects.len(), 1);
}

#[test]
fn a_timed_out_call_resolves_and_a_late_reply_is_ignored() {
    let mut s = started_session();
    s.poll_tick(10);
    // Not due yet: nothing happens.
    assert_eq!(s.call_timed_out(5, 39), vec![]);
    // The deadline passes: the round is abandoned.
    assert_eq!(s.call_timed_out(5, 40), vec![]);
    assert!(s.is_active());
    let before = s.get_current_state();
    // The reply arrives after the timeout: its entry is gone, so this is
    // a no-op, not a second resolution.
    let effects = s.handle_line("{\"id\":5,\"result\":{\"count\":9}}", 41);
    assert_eq!(effects, vec![]);
    assert_eq!(s.get_current_state(), before);
    // The loop polls again afterwards.
    assert_eq!(s.poll_tick(45).len(), 1);
}

#[test]
fn worker_death_fails_all_pending_calls_and_tears_the_session_down() {
    let mut s = started_session();
    s.poll_tick(10);
    let effects = s.worker_gone();
    assert_eq!(effects, vec![Effect::SessionFailed(SessionError::WorkerGone)]);
    assert!(!s.is_active());
    // A reply for the failed call is now a no-op.
    assert_eq!(s.handle_line("{\"id\":5,\"result\":{\"count\":9}}", 11), vec![]);
}

#[test]
fn a_graceful_stop_ends_with_a_forced_kill() {
    let mut s = started_session();
    let effects = s.stop(10).unwrap();
    assert_eq!(
        effects,
        vec![Effect::Send("{\"id\":5,\"method\":\"stopLiveChat\"}".to_owned())]
    );
    let effects = s.handle_line("{\"id\":5,\"result\":null}", 11);
    assert_eq!(effects, vec![Effect::KillWorker]);
    assert!(!s.is_active());
}

#[test]
fn a_stop_whose_graceful_call_times_out_still_kills_the_worker() {
    let mut s = started_session();
    s.stop(10).unwrap();
    let effects = s.call_timed_out(5, 40);
    assert_eq!(effects, vec![Effect::KillWorker]);
    assert!(!s.is_active());
}

#[test]
fn manual_points_and_reset_work_in_any_phase() {
    let mut s = Session::new(PointsConfig::default());
    let effects = s.add_manual_points(30).unwrap();
    match &effects[0] {
        Effect::Publish(snap) => assert_eq!(snap.points.total, 30),
        other => panic!("unexpected effect: {:?}", other),
    }
    assert_eq!(s.add_manual_points(i64::MAX).unwrap_err(), SessionError::InvalidInput);
    let effects = s.reset_points();
    match &effects[0] {
        Effect::Publish(snap) => {
            assert_eq!(snap.points.total, 0);
            assert_eq!(snap.points.manual, 0);
        },
        other => panic!("unexpected effect: {:?}", other),
    }
}

#[test]
fn authenticated_sessions_prefer_the_exact_count_and_fall_back() {
    let mut s = Session::new(PointsConfig::default());
    s.start("dQw4w9WgXcQ").unwrap();
    s.worker_spawned(Some("SID=abc".to_owned()), 0);
    // The cookie call comes first; its outcome is ignored.
    let effects = s.handle_line("{\"id\":1,\"result\":null}", 1);
    assert_eq!(effects, vec![Effect::Send("{\"id\":2,\"method\":\"init\"}".to_owned())]);
    s.handle_line("{\"id\":2,\"result\":{\"authenticated\":true}}", 2);
    let live = "{\"id\":3,\"result\":{\"videoId\":\"dQw4w9WgXcQ\",\"title\":\"t\",\
        \"channelId\":\"UC123\",\"channelName\":\"c\",\"concurrentViewers\":10,\
        \"likeCount\":0,\"isLive\":true}}";
    let effects = s.handle_line(live, 3);
    assert_eq!(
        effects,
        vec![Effect::Send("{\"id\":4,\"method\":\"getExactSubscriberCount\"}".to_owned())]
    );
    // The exact count fails; the channel count is the fallback.
    let effects = s.handle_line("{\"id\":4,\"error\":\"not authorized\"}", 4);
    assert_eq!(
        effects,
        vec![Effect::Send(
            "{\"id\":5,\"method\":\"getSubscriberCount\",\"params\":{\"channelId\":\"UC123\"}}"
                .to_owned()
        )]
    );
    let effects = s.handle_line("{\"id\":5,\"result\":{\"count\":77}}", 5);
    assert_eq!(effects.len(), 1);
    let effects = s.handle_line("{\"id\":6,\"result\":null}", 6);
    assert_eq!(effects.len(), 2);
    assert!(s.is_active());
    assert_eq!(s.get_current_state().metrics.initial_subscribers, 77);
}

#[test]
fn a_spawn_failure_returns_the_session_to_idle() {
    let mut s = Session::new(PointsConfig::default());
    s.start("dQw4w9WgXcQ").unwrap();
    assert_eq!(s.spawn_failed(), SessionError::WorkerUnavailable);
    assert!(!s.is_active());
    // A new start is possible afterwards.
    assert!(s.start("dQw4w9WgXcQ").is_ok());
}

#[test]
fn a_timed_out_startup_call_aborts_the_start() {
    let mut s = Session::new(PointsConfig::default());
    s.start("dQw4w9WgXcQ").unwrap();
    s.worker_spawned(None, 0);
    // The init call times out after the configured deadline.
    let effects = s.call_timed_out(1, 30);
    assert_eq!(
        effects,
        vec![
            Effect::SessionFailed(SessionError::Timeout),
            Effect::KillWorker,
        ]
    );
    assert!(!s.is_active());
}

#[test]
fn error_messages_describe_the_taxonomy() {
    assert_eq!(SessionError::AlreadyActive.message(), "Already monitoring");
    assert_eq!(SessionError::NotActive.message(), "Not monitoring");
    assert_eq!(SessionError::InvalidInput.message(), "Invalid YouTube URL or video ID");
    assert_eq!(SessionError::WorkerUnavailable.message(), "Sidecar not running");
    assert_eq!(SessionError::Timeout.message(), "Request timeout");
    assert_eq!(SessionError::WorkerGone.message(), "Response channel closed");
}

#[test]
fn the_persisted_state_defaults_to_empty() {
    let state = yt_point::session::SessionState::default();
    assert!(state.video_id.is_none());
    assert_eq!(state.points.total, 0);
}
