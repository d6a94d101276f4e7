use vstd::prelude::*;
use crate::json::JsonValue;
use crate::json::obj_lookup;
use crate::json::obj_get;
use crate::json::string_eq_str;

verus! {

broadcast use vstd::string::group_string_axioms;

// ------------------------------------------------------------------------
// Tip events
// ------------------------------------------------------------------------

/// The payload of a tip notification: who tipped how much, in which
/// currency, with which message, and when.
#[derive(Debug, PartialEq)]
pub struct SuperchatEventData {
    pub id: String,
    pub author: String,
    pub amount: i64,
    pub currency: String,
    pub message: String,
    pub timestamp: i64,
}

/// What a tip payload decodes to: an object carrying string `id`,
/// `author`, `currency` and `message` members and integer `amount` and
/// `timestamp` members; anything else is dropped.
pub open spec fn spec_superchat(p: JsonValue) -> Option<SuperchatEventData> {
    match p {
        JsonValue::Obj(f) => {
            match (
                obj_lookup(f@, "id"@),
                obj_lookup(f@, "author"@),
                obj_lookup(f@, "amount"@),
                obj_lookup(f@, "currency"@),
                obj_lookup(f@, "message"@),
                obj_lookup(f@, "timestamp"@),
            ) {
                (
                    Some(JsonValue::Str(id)),
                    Some(JsonValue::Str(author)),
                    Some(JsonValue::Int(amount)),
                    Some(JsonValue::Str(currency)),
                    Some(JsonValue::Str(message)),
                    Some(JsonValue::Int(timestamp)),
                ) => Some(SuperchatEventData { id, author, amount, currency, message, timestamp }),
                _ => None,
            }
        },
        _ => None,
    }
}

/// The six member names of a tip payload are pairwise distinct.
proof fn lemma_superchat_keys_distinct()
    ensures
        "id"@ != "author"@,
        "id"@ != "amount"@,
        "id"@ != "currency"@,
        "id"@ != "message"@,
        "id"@ != "timestamp"@,
        "author"@ != "amount"@,
        "author"@ != "currency"@,
        "author"@ != "message"@,
        "author"@ != "timestamp"@,
        "amount"@ != "currency"@,
        "amount"@ != "message"@,
        "amount"@ != "timestamp"@,
        "currency"@ != "message"@,
        "currency"@ != "timestamp"@,
        "message"@ != "timestamp"@,
{
    reveal_strlit("id");
    reveal_strlit("author");
    reveal_strlit("amount");
    reveal_strlit("currency");
    reveal_strlit("message");
    reveal_strlit("timestamp");
    assert("id"@.len() == 2);
    assert("author"@.len() == 6);
    assert("amount"@.len() == 6);
    assert("currency"@.len() == 8);
    assert("message"@.len() == 7);
    assert("timestamp"@.len() == 9);
    assert("author"@[1] == 'u');
    assert("amount"@[1] == 'm');
}

/// Looking one element further into the member list either finds the key
/// at that element or defers to the rest.
proof fn lemma_lookup_step(s: Seq<(String, JsonValue)>, j: int, key: Seq<char>)
    requires
        1 <= j <= s.len(),
    ensures
        obj_lookup(s.skip(j - 1), key) == (if s[j - 1].0@ == key {
            Some(s[j - 1].1)
        } else {
            obj_lookup(s.skip(j), key)
        }),
{
    assert(s.skip(j - 1)[0] == s[j - 1]);
    assert(s.skip(j - 1).drop_first() =~= s.skip(j));
}

/// Walks a tip payload's members once and hands back the six values.
fn split_superchat_fields(fields: Vec<(String, JsonValue)>) -> (r: (
    Option<JsonValue>,
    Option<JsonValue>,
    Option<JsonValue>,
    Option<JsonValue>,
    Option<JsonValue>,
    Option<JsonValue>,
))
    ensures
        r.0 == obj_lookup(fields@, "id"@),
        r.1 == obj_lookup(fields@, "author"@),
        r.2 == obj_lookup(fields@, "amount"@),
        r.3 == obj_lookup(fields@, "currency"@),
        r.4 == obj_lookup(fields@, "message"@),
        r.5 == obj_lookup(fields@, "timestamp"@),
{
    let mut f = fields;
    let mut v_id: Option<JsonValue> = None;
    let mut v_author: Option<JsonValue> = None;
    let mut v_amount: Option<JsonValue> = None;
    let mut v_currency: Option<JsonValue> = None;
    let mut v_message: Option<JsonValue> = None;
    let mut v_timestamp: Option<JsonValue> = None;
    assert(fields@.skip(fields@.len() as int).len() == 0);
    while f.len() > 0
        invariant
            f@.len() <= fields@.len(),
            f@ == fields@.take(f@.len() as int),
            v_id == obj_lookup(fields@.skip(f@.len() as int), "id"@),
            v_author == obj_lookup(fields@.skip(f@.len() as int), "author"@),
            v_amount == obj_lookup(fields@.skip(f@.len() as int), "amount"@),
            v_currency == obj_lookup(fields@.skip(f@.len() as int), "currency"@),
            v_message == obj_lookup(fields@.skip(f@.len() as int), "message"@),
            v_timestamp == obj_lookup(fields@.skip(f@.len() as int), "timestamp"@),
        decreases f@.len(),
    {
        let ghost j = f@.len() as int;
        assert(1 <= j <= fields@.len());
        proof {
            lemma_superchat_keys_distinct();
            lemma_lookup_step(fields@, j, "id"@);
            lemma_lookup_step(fields@, j, "author"@);
            lemma_lookup_step(fields@, j, "amount"@);
            lemma_lookup_step(fields@, j, "currency"@);
            lemma_lookup_step(fields@, j, "message"@);
            lemma_lookup_step(fields@, j, "timestamp"@);
        }
        assert(f@[j - 1] == fields@[j - 1]);
        let popped = f.pop();
        let (k, v) = match popped {
            Some(p) => p,
            None => {
                proof {
                    assert(false);
                }
                (String::new(), JsonValue::Null)
            },
        };
        if string_eq_str(&k, "id") {
            v_id = Some(v);
        } else if string_eq_str(&k, "author") {
            v_author = Some(v);
        } else if string_eq_str(&k, "amount") {
            v_amount = Some(v);
        } else if string_eq_str(&k, "currency") {
            v_currency = Some(v);
        } else if string_eq_str(&k, "message") {
            v_message = Some(v);
        } else if string_eq_str(&k, "timestamp") {
            v_timestamp = Some(v);
        }
        assert(f@ =~= fields@.take(f@.len() as int));
    }
    assert(fields@.skip(0) =~= fields@);
    (v_id, v_author, v_amount, v_currency, v_message, v_timestamp)
}

/// Decodes a tip payload.
pub fn parse_superchat(p: JsonValue) -> (r: Option<SuperchatEventData>)
    ensures
        r == spec_superchat(p),
{
    match p {
        JsonValue::Obj(f) => {
            let ghost gf = f@;
            let (v_id, v_author, v_amount, v_currency, v_message, v_timestamp) =
                split_superchat_fields(f);
            match (v_id, v_author, v_amount, v_currency, v_message, v_timestamp) {
                (
                    Some(JsonValue::Str(id)),
                    Some(JsonValue::Str(author)),
                    Some(JsonValue::Int(amount)),
                    Some(JsonValue::Str(currency)),
                    Some(JsonValue::Str(message)),
                    Some(JsonValue::Int(timestamp)),
                ) => Some(SuperchatEventData { id, author, amount, currency, message, timestamp }),
                _ => None,
            }
        },
        _ => None,
    }
}

// ------------------------------------------------------------------------
// Reply payloads
// ------------------------------------------------------------------------

/// Whether an `init` reply reports an authenticated client: its
/// `authenticated` member is true.  Anything else counts as not
/// authenticated.
pub open spec fn spec_init_authenticated(v: JsonValue) -> bool {
    match v {
        JsonValue::Obj(f) => match obj_lookup(f@, "authenticated"@) {
            Some(JsonValue::Bool(b)) => b,
            _ => false,
        },
        _ => false,
    }
}

/// Reads the authentication flag of an `init` reply.
pub fn parse_init_authenticated(v: &JsonValue) -> (r: bool)
    ensures
        r == spec_init_authenticated(*v),
{
    match v {
        JsonValue::Obj(f) => match obj_get(f, "authenticated") {
            Some(b) => match b {
                JsonValue::Bool(x) => *x,
                _ => false,
            },
            None => false,
        },
        _ => false,
    }
}

/// The count a subscriber-count reply carries: its integer `count`
/// member, if it has one.
pub open spec fn spec_count(v: JsonValue) -> Option<i64> {
    match v {
        JsonValue::Obj(f) => match obj_lookup(f@, "count"@) {
            Some(JsonValue::Int(i)) => Some(i),
            _ => None,
        },
        _ => None,
    }
}

/// Reads the count of a subscriber-count reply.
pub fn parse_count(v: &JsonValue) -> (r: Option<i64>)
    ensures
        r == spec_count(*v),
{
    match v {
        JsonValue::Obj(f) => match obj_get(f, "count") {
            Some(c) => match c {
                JsonValue::Int(i) => Some(*i),
                _ => None,
            },
            None => None,
        },
        _ => None,
    }
}

// ------------------------------------------------------------------------
// Live info
// ------------------------------------------------------------------------

/// What a `getLiveInfo` reply carries about the stream.
#[derive(Debug, PartialEq)]
pub struct LiveInfo {
    pub video_id: String,
    pub title: String,
    pub channel_id: String,
    pub channel_name: String,
    pub concurrent_viewers: i64,
    pub like_count: Option<i64>,
    pub is_live: bool,
}

/// What a `getLiveInfo` reply decodes to: an object with string
/// `videoId`, `title`, `channelId` and `channelName` members, an integer
/// `concurrentViewers` member and a boolean `isLive` member; `likeCount`
/// is optional and may be null.
pub open spec fn spec_live_info(v: JsonValue) -> Option<LiveInfo> {
    match v {
        JsonValue::Obj(f) => {
            match (
                obj_lookup(f@, "videoId"@),
                obj_lookup(f@, "title"@),
                obj_lookup(f@, "channelId"@),
                obj_lookup(f@, "channelName"@),
                obj_lookup(f@, "concurrentViewers"@),
                obj_lookup(f@, "isLive"@),
            ) {
                (
                    Some(JsonValue::Str(video_id)),
                    Some(JsonValue::Str(title)),
                    Some(JsonValue::Str(channel_id)),
                    Some(JsonValue::Str(channel_name)),
                    Some(JsonValue::Int(concurrent_viewers)),
                    Some(JsonValue::Bool(is_live)),
                ) => match obj_lookup(f@, "likeCount"@) {
                    None => Some(
                        LiveInfo {
                            video_id,
                            title,
                            channel_id,
                            channel_name,
                            concurrent_viewers,
                            like_count: None,
                            is_live,
                        },
                    ),
                    Some(JsonValue::Null) => Some(
                        LiveInfo {
                            video_id,
                            title,
                            channel_id,
                            channel_name,
                            concurrent_viewers,
                            like_count: None,
                            is_live,
                        },
                    ),
                    Some(JsonValue::Int(likes)) => Some(
                        LiveInfo {
                            video_id,
                            title,
                            channel_id,
                            channel_name,
                            concurrent_viewers,
                            like_count: Some(likes),
                            is_live,
                        },
                    ),
                    Some(_) => None,
                },
                _ => None,
            }
        },
        _ => None,
    }
}

/// The seven member names of a live-info reply are pairwise distinct.
proof fn lemma_live_info_keys_distinct()
    ensures
        "videoId"@ != "title"@,
        "videoId"@ != "channelId"@,
        "videoId"@ != "channelName"@,
        "videoId"@ != "concurrentViewers"@,
        "videoId"@ != "likeCount"@,
        "videoId"@ != "isLive"@,
        "title"@ != "channelId"@,
        "title"@ != "channelName"@,
        "title"@ != "concurrentViewers"@,
        "title"@ != "likeCount"@,
        "title"@ != "isLive"@,
        "channelId"@ != "channelName"@,
        "channelId"@ != "concurrentViewers"@,
        "channelId"@ != "likeCount"@,
        "channelId"@ != "isLive"@,
        "channelName"@ != "concurrentViewers"@,
        "channelName"@ != "likeCount"@,
        "channelName"@ != "isLive"@,
        "concurrentViewers"@ != "likeCount"@,
        "concurrentViewers"@ != "isLive"@,
        "likeCount"@ != "isLive"@,
{
    reveal_strlit("videoId");
    reveal_strlit("title");
    reveal_strlit("channelId");
    reveal_strlit("channelName");
    reveal_strlit("concurrentViewers");
    reveal_strlit("likeCount");
    reveal_strlit("isLive");
    assert("videoId"@.len() == 7);
    assert("title"@.len() == 5);
    assert("channelId"@.len() == 9);
    assert("channelName"@.len() == 11);
    assert("concurrentViewers"@.len() == 17);
    assert("likeCount"@.len() == 9);
    assert("isLive"@.len() == 6);
    assert("channelId"@[0] == 'c');
    assert("likeCount"@[0] == 'l');
}

/// Walks a live-info reply's members once and hands back the seven
/// values.
fn split_live_info_fields(fields: Vec<(String, JsonValue)>) -> (r: (
    Option<JsonValue>,
    Option<JsonValue>,
    Option<JsonValue>,
    Option<JsonValue>,
    Option<JsonValue>,
    Option<JsonValue>,
    Option<JsonValue>,
))
    ensures
        r.0 == obj_lookup(fields@, "videoId"@),
        r.1 == obj_lookup(fields@, "title"@),
        r.2 == obj_lookup(fields@, "channelId"@),
        r.3 == obj_lookup(fields@, "channelName"@),
        r.4 == obj_lookup(fields@, "concurrentViewers"@),
        r.5 == obj_lookup(fields@, "likeCount"@),
        r.6 == obj_lookup(fields@, "isLive"@),
{
    let mut f = fields;
    let mut v_vid: Option<JsonValue> = None;
    let mut v_title: Option<JsonValue> = None;
    let mut v_cid: Option<JsonValue> = None;
    let mut v_cname: Option<JsonValue> = None;
    let mut v_viewers: Option<JsonValue> = None;
    let mut v_likes: Option<JsonValue> = None;
    let mut v_live: Option<JsonValue> = None;
    assert(fields@.skip(fields@.len() as int).len() == 0);
    while f.len() > 0
        invariant
            f@.len() <= fields@.len(),
            f@ == fields@.take(f@.len() as int),
            v_vid == obj_lookup(fields@.skip(f@.len() as int), "videoId"@),
            v_title == obj_lookup(fields@.skip(f@.len() as int), "title"@),
            v_cid == obj_lookup(fields@.skip(f@.len() as int), "channelId"@),
            v_cname == obj_lookup(fields@.skip(f@.len() as int), "channelName"@),
            v_viewers == obj_lookup(fields@.skip(f@.len() as int), "concurrentViewers"@),
            v_likes == obj_lookup(fields@.skip(f@.len() as int), "likeCount"@),
            v_live == obj_lookup(fields@.skip(f@.len() as int), "isLive"@),
        decreases f@.len(),
    {
        let ghost j = f@.len() as int;
        assert(1 <= j <= fields@.len());
        proof {
            lemma_live_info_keys_distinct();
            lemma_lookup_step(fields@, j, "videoId"@);
            lemma_lookup_step(fields@, j, "title"@);
            lemma_lookup_step(fields@, j, "channelId"@);
            lemma_lookup_step(fields@, j, "channelName"@);
            lemma_lookup_step(fields@, j, "concurrentViewers"@);
            lemma_lookup_step(fields@, j, "likeCount"@);
            lemma_lookup_step(fields@, j, "isLive"@);
        }
        assert(f@[j - 1] == fields@[j - 1]);
        let popped = f.pop();
        let (k, v) = match popped {
            Some(p) => p,
            None => {
                proof {
                    assert(false);
                }
                (String::new(), JsonValue::Null)
            },
        };
        if string_eq_str(&k, "videoId") {
            v_vid = Some(v);
        } else if string_eq_str(&k, "title") {
            v_title = Some(v);
        } else if string_eq_str(&k, "channelId") {
            v_cid = Some(v);
        } else if string_eq_str(&k, "channelName") {
            v_cname = Some(v);
        } else if string_eq_str(&k, "concurrentViewers") {
            v_viewers = Some(v);
        } else if string_eq_str(&k, "likeCount") {
            v_likes = Some(v);
        } else if string_eq_str(&k, "isLive") {
            v_live = Some(v);
        }
        assert(f@ =~= fields@.take(f@.len() as int));
    }
    assert(fields@.skip(0) =~= fields@);
    (v_vid, v_title, v_cid, v_cname, v_viewers, v_likes, v_live)
}

/// Decodes a `getLiveInfo` reply.
pub fn parse_live_info(v: JsonValue) -> (r: Option<LiveInfo>)
    ensures
        r == spec_live_info(v),
{
    match v {
        JsonValue::Obj(f) => {
            let ghost gf = f@;
            let (v_vid, v_title, v_cid, v_cname, v_viewers, v_likes, v_live) =
                split_live_info_fields(f);
            match (v_vid, v_title, v_cid, v_cname, v_viewers, v_live) {
                (
                    Some(JsonValue::Str(video_id)),
                    Some(JsonValue::Str(title)),
                    Some(JsonValue::Str(channel_id)),
                    Some(JsonValue::Str(channel_name)),
                    Some(JsonValue::Int(concurrent_viewers)),
                    Some(JsonValue::Bool(is_live)),
                ) => match v_likes {
                    None => Some(
                        LiveInfo {
                            video_id,
                            title,
                            channel_id,
                            channel_name,
                            concurrent_viewers,
                            like_count: None,
                            is_live,
                        },
                    ),
                    Some(JsonValue::Null) => Some(
                        LiveInfo {
                            video_id,
                            title,
                            channel_id,
                            channel_name,
                            concurrent_viewers,
                            like_count: None,
                            is_live,
                        },
                    ),
                    Some(JsonValue::Int(likes)) => Some(
                        LiveInfo {
                            video_id,
                            title,
                            channel_id,
                            channel_name,
                            concurrent_viewers,
                            like_count: Some(likes),
                            is_live,
                        },
                    ),
                    Some(_) => None,
                },
                _ => None,
            }
        },
        _ => None,
    }
}

} // verus!
