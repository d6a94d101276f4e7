use yt_point::codec::RpcMethod;
use yt_point::rpc::Correlator;
use yt_point::rpc::DEFAULT_CALL_TIMEOUT;

#[test]
fn identifiers_are_fresh_and_increasing() {
    let mut c = Correlator::new();
    let (id1, line1) = c.begin_call(RpcMethod::Init, 0, DEFAULT_CALL_TIMEOUT);
    let (id2, line2) = c.begin_call(
        RpcMethod::GetLiveInfo("abc".to_owned()),
        0,
        DEFAULT_CALL_TIMEOUT,
    );
    let (id3, _) = c.begin_call(RpcMethod::StopLiveChat, 5, 10);
    assert_eq!(id1, 1);
    assert_eq!(id2, 2);
    assert_eq!(id3, 3);
    assert_eq!(line1, "{\"id\":1,\"method\":\"init\"}");
    assert_eq!(
        line2,
        "{\"id\":2,\"method\":\"getLiveInfo\",\"params\":{\"videoId\":\"abc\"}}"
    );
}

#[test]
fn replies_resolve_their_own_caller() {
    let mut c = Correlator::new();
    let (id_a, _) = c.begin_call(RpcMethod::Init, 0, 30);
    let (id_b, _) = c.begin_call(RpcMethod::GetExactSubscriberCount, 0, 30);
    let (id_c, _) = c.begin_call(RpcMethod::GetLiveInfo("v".to_owned()), 0, 30);

    // Replies arrive out of order; each resolves exactly the entry that
    // issued its identifier.
    let e_b = c.take(id_b).unwrap();
    assert_eq!(e_b.id, id_b);
    assert_eq!(e_b.method, RpcMethod::GetExactSubscriberCount);

    let e_c = c.take(id_c).unwrap();
    assert_eq!(e_c.method, RpcMethod::GetLiveInfo("v".to_owned()));

    let e_a = c.take(id_a).unwrap();
    assert_eq!(e_a.method, RpcMethod::Init);
}

#[test]
fn a_second_resolution_is_a_no_op() {
    let mut c = Correlator::new();
    let (id, _) = c.begin_call(RpcMethod::Init, 0, 30);
    assert!(c.take(id).is_some());
    assert!(c.take(id).is_none());
    assert!(c.take(999).is_none());
}

#[test]
fn expiry_honours_the_deadline() {
    let mut c = Correlator::new();
    let (id, _) = c.begin_call(RpcMethod::Init, 100, 30);
    // Not due yet: nothing happens.
    assert!(c.expire(id, 129).is_none());
    // At the deadline the entry is removed...
    let e = c.expire(id, 130).unwrap();
    assert_eq!(e.id, id);
    assert_eq!(e.deadline, 130);
    // ...and a reply arriving after the timeout is a no-op.
    assert!(c.take(id).is_none());
}

#[test]
fn worker_termination_fails_every_pending_call_at_once() {
    let mut c = Correlator::new();
    let (id1, _) = c.begin_call(RpcMethod::Init, 0, 30);
    let (id2, _) = c.begin_call(RpcMethod::StopLiveChat, 1, 30);
    let (id3, _) = c.begin_call(RpcMethod::GetExactSubscriberCount, 2, 30);
    let failed = c.fail_all();
    assert_eq!(failed.len(), 3);
    assert_eq!(failed[0].id, id1);
    assert_eq!(failed[1].id, id2);
    assert_eq!(failed[2].id, id3);
    assert!(c.take(id1).is_none());
    assert!(c.take(id2).is_none());
    assert!(c.take(id3).is_none());
    // Identifiers are not reused afterwards.
    let (id4, _) = c.begin_call(RpcMethod::Init, 3, 30);
    assert_eq!(id4, 4);
}

#[test]
fn due_identifiers_are_listed_in_order() {
    let mut c = Correlator::new();
    let (id1, _) = c.begin_call(RpcMethod::Init, 0, 30);
    let (id2, _) = c.begin_call(RpcMethod::StopLiveChat, 20, 30);
    let (id3, _) = c.begin_call(RpcMethod::GetExactSubscriberCount, 5, 30);
    assert_eq!(c.due_ids(10), Vec::<u64>::new());
    assert_eq!(c.due_ids(30), vec![id1]);
    assert_eq!(c.due_ids(35), vec![id1, id3]);
    assert_eq!(c.due_ids(50), vec![id1, id2, id3]);
}
