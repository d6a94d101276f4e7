use yt_point::codec::DecodeError;
use yt_point::codec::InboundMessage;
use yt_point::codec::RpcMethod;
use yt_point::codec::RpcOutcome;
use yt_point::codec::decode_line;
use yt_point::codec::encode_request;
use yt_point::json::JsonValue;

#[test]
fn encode_without_params() {
    assert_eq!(encode_request(1, &RpcMethod::Init), "{\"id\":1,\"method\":\"init\"}");
    assert_eq!(
        encode_request(42, &RpcMethod::GetExactSubscriberCount),
        "{\"id\":42,\"method\":\"getExactSubscriberCount\"}"
    );
    assert_eq!(
        encode_request(7, &RpcMethod::StopLiveChat),
        "{\"id\":7,\"method\":\"stopLiveChat\"}"
    );
}

#[test]
fn encode_with_params() {
    assert_eq!(
        encode_request(2, &RpcMethod::GetLiveInfo("dQw4w9WgXcQ".to_owned())),
        "{\"id\":2,\"method\":\"getLiveInfo\",\"params\":{\"videoId\":\"dQw4w9WgXcQ\"}}"
    );
    assert_eq!(
        encode_request(3, &RpcMethod::GetSubscriberCount("UC123".to_owned())),
        "{\"id\":3,\"method\":\"getSubscriberCount\",\"params\":{\"channelId\":\"UC123\"}}"
    );
    assert_eq!(
        encode_request(4, &RpcMethod::StartLiveChat("abc".to_owned())),
        "{\"id\":4,\"method\":\"startLiveChat\",\"params\":{\"videoId\":\"abc\"}}"
    );
}

#[test]
fn encode_escapes_cookie_values() {
    assert_eq!(
        encode_request(5, &RpcMethod::SetCookies("a=\"b\\c\"\nx\ty\r".to_owned())),
        "{\"id\":5,\"method\":\"setCookies\",\"params\":{\"cookies\":\"a=\\\"b\\\\c\\\"\\nx\\ty\\r\"}}"
    );
}

#[test]
fn encode_escapes_control_characters() {
    assert_eq!(
        encode_request(6, &RpcMethod::SetCookies("a\u{01}b\u{1f}".to_owned())),
        "{\"id\":6,\"method\":\"setCookies\",\"params\":{\"cookies\":\"a\\u0001b\\u001f\"}}"
    );
}

#[test]
fn encoded_request_round_trips_through_the_decoder() {
    // The decoder sees an object with a numeric id and no error: a
    // successful response shape.  This pins the encoder's output to real
    // JSON.
    let line = encode_request(9, &RpcMethod::GetLiveInfo("x\"y\\z".to_owned()));
    match decode_line(&line) {
        Ok(InboundMessage::Response { id, outcome }) => {
            assert_eq!(id, 9);
            match outcome {
                RpcOutcome::Success(JsonValue::Null) => {},
                other => panic!("unexpected outcome: {:?}", other),
            }
        },
        other => panic!("unexpected decode: {:?}", other),
    }
}

#[test]
fn decode_successful_response() {
    let msg = decode_line("{\"id\": 3, \"result\": {\"count\": 42}}").unwrap();
    match msg {
        InboundMessage::Response { id, outcome } => {
            assert_eq!(id, 3);
            match outcome {
                RpcOutcome::Success(JsonValue::Obj(fields)) => {
                    assert_eq!(fields.len(), 1);
                    assert_eq!(fields[0].0, "count");
                    assert_eq!(fields[0].1, JsonValue::Int(42));
                },
                other => panic!("unexpected outcome: {:?}", other),
            }
        },
        other => panic!("unexpected message: {:?}", other),
    }
}

#[test]
fn decode_response_without_result_is_null_success() {
    let msg = decode_line("{\"id\": 8}").unwrap();
    assert_eq!(
        msg,
        InboundMessage::Response { id: 8, outcome: RpcOutcome::Success(JsonValue::Null) }
    );
}

#[test]
fn decode_error_response() {
    let msg = decode_line("{\"id\": 4, \"error\": \"no such video\"}").unwrap();
    assert_eq!(
        msg,
        InboundMessage::Response {
            id: 4,
            outcome: RpcOutcome::Failure("no such video".to_owned())
        }
    );
}

#[test]
fn decode_null_error_is_success() {
    let msg = decode_line("{\"id\": 4, \"error\": null, \"result\": true}").unwrap();
    assert_eq!(
        msg,
        InboundMessage::Response { id: 4, outcome: RpcOutcome::Success(JsonValue::Bool(true)) }
    );
}

#[test]
fn decode_push_event() {
    let line = "{\"event\": {\"type\": \"superchat\", \"data\": {\"amount\": 500}}}";
    let msg = decode_line(line).unwrap();
    match msg {
        InboundMessage::Push { kind, payload } => {
            assert_eq!(kind, "superchat");
            match payload {
                JsonValue::Obj(fields) => {
                    assert_eq!(fields.len(), 1);
                    assert_eq!(fields[0].0, "amount");
                    assert_eq!(fields[0].1, JsonValue::Int(500));
                },
                other => panic!("unexpected payload: {:?}", other),
            }
        },
        other => panic!("unexpected message: {:?}", other),
    }
}

#[test]
fn push_shape_wins_over_response_shape() {
    // A document carrying both discriminators is a push event: the
    // event-kind probe comes first.
    let line = "{\"id\": 12, \"event\": {\"type\": \"other\", \"data\": {}}}";
    match decode_line(line).unwrap() {
        InboundMessage::Push { kind, .. } => assert_eq!(kind, "other"),
        other => panic!("unexpected message: {:?}", other),
    }
}

#[test]
fn malformed_lines_are_nonfatal_decode_errors() {
    assert_eq!(decode_line("not json at all"), Err(DecodeError));
    assert_eq!(decode_line(""), Err(DecodeError));
    assert_eq!(decode_line("[1, 2, 3]"), Err(DecodeError));
    assert_eq!(decode_line("{\"answer\": 42}"), Err(DecodeError));
    assert_eq!(decode_line("{\"id\": \"seven\"}"), Err(DecodeError));
    assert_eq!(decode_line("{\"id\": -3}"), Err(DecodeError));
    assert_eq!(decode_line("{\"id\": 3, \"error\": 17}"), Err(DecodeError));
    assert_eq!(decode_line("{\"event\": {\"data\": {}}}"), Err(DecodeError));
    assert_eq!(decode_line("{\"event\": 5}"), Err(DecodeError));
}
