use vstd::prelude::*;
use vstd::string::StringExecFns;
use vstd::string::StrSliceExecFns;
use crate::json::JsonValue;
use crate::json::obj_lookup;
use crate::json::json_of;
use crate::json::parse_json;

verus! {

broadcast use vstd::string::group_string_axioms;

// ------------------------------------------------------------------------
// Requests
// ------------------------------------------------------------------------

/// The requests the worker protocol knows, each with the parameter its
/// method takes.
#[derive(Debug, PartialEq)]
pub enum RpcMethod {
    Init,
    /// Carries the browser cookie header used for authentication.
    SetCookies(String),
    /// Carries the video identifier.
    GetLiveInfo(String),
    /// Carries the channel identifier.
    GetSubscriberCount(String),
    GetExactSubscriberCount,
    /// Carries the video identifier.
    StartLiveChat(String),
    StopLiveChat,
}

impl RpcMethod {
    /// The method name on the wire.
    pub open spec fn spec_name(self) -> Seq<char> {
        match self {
            RpcMethod::Init => "init"@,
            RpcMethod::SetCookies(_) => "setCookies"@,
            RpcMethod::GetLiveInfo(_) => "getLiveInfo"@,
            RpcMethod::GetSubscriberCount(_) => "getSubscriberCount"@,
            RpcMethod::GetExactSubscriberCount => "getExactSubscriberCount"@,
            RpcMethod::StartLiveChat(_) => "startLiveChat"@,
            RpcMethod::StopLiveChat => "stopLiveChat"@,
        }
    }

    pub fn name(&self) -> (r: &str)
        ensures
            r@ == self.spec_name(),
    {
        match self {
            RpcMethod::Init => "init",
            RpcMethod::SetCookies(_) => "setCookies",
            RpcMethod::GetLiveInfo(_) => "getLiveInfo",
            RpcMethod::GetSubscriberCount(_) => "getSubscriberCount",
            RpcMethod::GetExactSubscriberCount => "getExactSubscriberCount",
            RpcMethod::StartLiveChat(_) => "startLiveChat",
            RpcMethod::StopLiveChat => "stopLiveChat",
        }
    }
}

// ------------------------------------------------------------------------
// String escaping, JSON style
// ------------------------------------------------------------------------

/// The hexadecimal digit for `d`.
pub open spec fn hex_digit(d: u32) -> char {
    if d == 0 {
        '0'
    } else if d == 1 {
        '1'
    } else if d == 2 {
        '2'
    } else if d == 3 {
        '3'
    } else if d == 4 {
        '4'
    } else if d == 5 {
        '5'
    } else if d == 6 {
        '6'
    } else if d == 7 {
        '7'
    } else if d == 8 {
        '8'
    } else if d == 9 {
        '9'
    } else if d == 10 {
        'a'
    } else if d == 11 {
        'b'
    } else if d == 12 {
        'c'
    } else if d == 13 {
        'd'
    } else if d == 14 {
        'e'
    } else {
        'f'
    }
}

/// How one character appears inside a JSON string literal: quote,
/// backslash and the common control characters get a two-character escape,
/// the remaining control characters a `\u00XX` escape, and everything else
/// stands for itself.
pub open spec fn esc_char(c: char) -> Seq<char> {
    if c == '"' {
        seq!['\\', '"']
    } else if c == '\\' {
        seq!['\\', '\\']
    } else if c == '\n' {
        seq!['\\', 'n']
    } else if c == '\r' {
        seq!['\\', 'r']
    } else if c == '\t' {
        seq!['\\', 't']
    } else if (c as u32) < 32 {
        seq!['\\', 'u', '0', '0', hex_digit((c as u32) / 16), hex_digit((c as u32) % 16)]
    } else {
        seq![c]
    }
}

/// A whole character sequence, escaped.
pub open spec fn esc(s: Seq<char>) -> Seq<char>
    decreases s.len(),
{
    if s.len() == 0 {
        Seq::empty()
    } else {
        esc_char(s[0]) + esc(s.drop_first())
    }
}

proof fn lemma_esc_snoc(p: Seq<char>, c: char)
    ensures
        esc(p.push(c)) == esc(p) + esc_char(c),
    decreases p.len(),
{
    if p.len() == 0 {
        assert(p.push(c)[0] == c);
        assert(p.push(c).drop_first() =~= Seq::<char>::empty());
        assert(esc(p.push(c)) == esc_char(c) + esc(Seq::<char>::empty()));
        assert(esc(Seq::<char>::empty()) == Seq::<char>::empty());
        assert(p =~= Seq::<char>::empty());
        assert(esc(p.push(c)) =~= esc(p) + esc_char(c));
    } else {
        lemma_esc_snoc(p.drop_first(), c);
        assert(p.push(c)[0] == p[0]);
        assert(p.push(c).drop_first() =~= p.drop_first().push(c));
        assert(esc(p.push(c)) == esc_char(p[0]) + esc(p.drop_first().push(c)));
        assert(esc(p) == esc_char(p[0]) + esc(p.drop_first()));
        assert(esc(p.push(c)) =~= esc(p) + esc_char(c));
    }
}

/// The four member names probed on a top-level object are pairwise
/// distinct.
proof fn lemma_top_keys_distinct()
    ensures
        "event"@ != "id"@,
        "event"@ != "error"@,
        "event"@ != "result"@,
        "id"@ != "error"@,
        "id"@ != "result"@,
        "error"@ != "result"@,
{
    reveal_strlit("event");
    reveal_strlit("id");
    reveal_strlit("error");
    reveal_strlit("result");
    assert("event"@.len() == 5);
    assert("id"@.len() == 2);
    assert("error"@.len() == 5);
    assert("result"@.len() == 6);
    assert("event"@[1] == 'v');
    assert("error"@[1] == 'r');
}

/// The two member names probed on an event object are distinct.
proof fn lemma_event_keys_distinct()
    ensures
        "type"@ != "data"@,
{
    reveal_strlit("type");
    reveal_strlit("data");
    assert("type"@[0] == 't');
    assert("data"@[0] == 'd');
}

/// Looking one element further into the member list either finds the key
/// at that element or defers to the rest.
proof fn lemma_lookup_step(s: Seq<(String, JsonValue)>, j: int, key: Seq<char>)
    requires
        1 <= j <= s.len(),
    ensures
        obj_lookup(s.skip(j - 1), key) == (if s[j - 1].0@ == key {
            Some(s[j - 1].1)
        } else {
            obj_lookup(s.skip(j), key)
        }),
{
    assert(s.skip(j - 1)[0] == s[j - 1]);
    assert(s.skip(j - 1).drop_first() =~= s.skip(j));
}

/// Relies on String::push: appends one character at the end.
#[verifier::external_body]
fn push_char(s: &mut String, c: char)
    ensures
        final(s)@ == old(s)@.push(c),
{
    s.push(c);
}

fn hex_digit_char(d: u32) -> (c: char)
    requires
        d < 16,
    ensures
        c == hex_digit(d),
{
    if d == 0 {
        '0'
    } else if d == 1 {
        '1'
    } else if d == 2 {
        '2'
    } else if d == 3 {
        '3'
    } else if d == 4 {
        '4'
    } else if d == 5 {
        '5'
    } else if d == 6 {
        '6'
    } else if d == 7 {
        '7'
    } else if d == 8 {
        '8'
    } else if d == 9 {
        '9'
    } else if d == 10 {
        'a'
    } else if d == 11 {
        'b'
    } else if d == 12 {
        'c'
    } else if d == 13 {
        'd'
    } else if d == 14 {
        'e'
    } else {
        'f'
    }
}

/// Appends `s`, escaped, to `out`.
fn escape_into(out: &mut String, s: &str)
    ensures
        final(out)@ == old(out)@ + esc(s@),
{
    let n = s.unicode_len();
    let mut i: usize = 0;
    assert(s@.take(0) =~= Seq::<char>::empty());
    while i < n
        invariant
            n == s@.len(),
            i <= n,
            out@ == old(out)@ + esc(s@.take(i as int)),
        decreases n - i,
    {
        let c = s.get_char(i);
        proof {
            lemma_esc_snoc(s@.take(i as int), s@[i as int]);
            assert(s@.take(i as int).push(s@[i as int]) =~= s@.take(i as int + 1));
        }
        if c == '"' {
            push_char(out, '\\');
            push_char(out, '"');
        } else if c == '\\' {
            push_char(out, '\\');
            push_char(out, '\\');
        } else if c == '\n' {
            push_char(out, '\\');
            push_char(out, 'n');
        } else if c == '\r' {
            push_char(out, '\\');
            push_char(out, 'r');
        } else if c == '\t' {
            push_char(out, '\\');
            push_char(out, 't');
        } else {
            let code = c as u32;
            if code < 32 {
                push_char(out, '\\');
                push_char(out, 'u');
                push_char(out, '0');
                push_char(out, '0');
                push_char(out, hex_digit_char(code / 16));
                push_char(out, hex_digit_char(code % 16));
            } else {
                push_char(out, c);
            }
        }
        assert(out@ =~= old(out)@ + esc(s@.take(i as int + 1)));
        i = i + 1;
    }
    assert(s@.take(n as int) =~= s@);
}

// ------------------------------------------------------------------------
// Decimal numbers
// ------------------------------------------------------------------------

/// The decimal digit for `d`.
pub open spec fn dec_digit(d: int) -> char {
    if d == 0 {
        '0'
    } else if d == 1 {
        '1'
    } else if d == 2 {
        '2'
    } else if d == 3 {
        '3'
    } else if d == 4 {
        '4'
    } else if d == 5 {
        '5'
    } else if d == 6 {
        '6'
    } else if d == 7 {
        '7'
    } else if d == 8 {
        '8'
    } else {
        '9'
    }
}

/// The decimal representation of `n`, without leading zeroes (except for
/// zero itself).
pub open spec fn dec_rep(n: nat) -> Seq<char>
    decreases n,
{
    if n < 10 {
        seq![dec_digit(n as int)]
    } else {
        dec_rep(n / 10).push(dec_digit((n % 10) as int))
    }
}

fn dec_digit_char(d: u64) -> (c: char)
    requires
        d < 10,
    ensures
        c == dec_digit(d as int),
{
    if d == 0 {
        '0'
    } else if d == 1 {
        '1'
    } else if d == 2 {
        '2'
    } else if d == 3 {
        '3'
    } else if d == 4 {
        '4'
    } else if d == 5 {
        '5'
    } else if d == 6 {
        '6'
    } else if d == 7 {
        '7'
    } else if d == 8 {
        '8'
    } else {
        '9'
    }
}

/// Appends the decimal representation of `n` to `out`.
fn append_dec(out: &mut String, n: u64)
    ensures
        final(out)@ == old(out)@ + dec_rep(n as nat),
    decreases n,
{
    if n < 10 {
        push_char(out, dec_digit_char(n));
        assert(out@ =~= old(out)@ + dec_rep(n as nat));
    } else {
        append_dec(out, n / 10);
        push_char(out, dec_digit_char(n % 10));
        assert(out@ =~= old(out)@ + dec_rep(n as nat));
    }
}

// ------------------------------------------------------------------------
// Request encoding
// ------------------------------------------------------------------------

/// The `params` member of the encoded request, including its leading
/// comma; empty for the methods that take no parameter.
pub open spec fn spec_params_part(m: RpcMethod) -> Seq<char> {
    match m {
        RpcMethod::Init => Seq::empty(),
        RpcMethod::GetExactSubscriberCount => Seq::empty(),
        RpcMethod::StopLiveChat => Seq::empty(),
        RpcMethod::SetCookies(s) => ",\"params\":{\"cookies\":\""@ + esc(s@) + "\"}"@,
        RpcMethod::GetLiveInfo(v) => ",\"params\":{\"videoId\":\""@ + esc(v@) + "\"}"@,
        RpcMethod::StartLiveChat(v) => ",\"params\":{\"videoId\":\""@ + esc(v@) + "\"}"@,
        RpcMethod::GetSubscriberCount(c) => ",\"params\":{\"channelId\":\""@ + esc(c@) + "\"}"@,
    }
}

/// The full encoded request line (without the trailing newline): a JSON
/// object with the request identifier, the method name, and the method's
/// parameter object where it has one.
pub open spec fn spec_request_line(id: nat, m: RpcMethod) -> Seq<char> {
    "{\"id\":"@ + dec_rep(id) + ",\"method\":\""@ + esc(m.spec_name()) + "\""@ + spec_params_part(
        m,
    ) + "}"@
}

/// Encodes one request.  Encoding never fails: every member is either a
/// decimal number or an escaped string.
pub fn encode_request(id: u64, method: &RpcMethod) -> (r: String)
    ensures
        r@ == spec_request_line(id as nat, *method),
{
    let mut out = String::new();
    out.append("{\"id\":");
    append_dec(&mut out, id);
    out.append(",\"method\":\"");
    escape_into(&mut out, method.name());
    out.append("\"");
    match method {
        RpcMethod::SetCookies(s) => {
            out.append(",\"params\":{\"cookies\":\"");
            escape_into(&mut out, s.as_str());
            out.append("\"}");
        },
        RpcMethod::GetLiveInfo(v) => {
            out.append(",\"params\":{\"videoId\":\"");
            escape_into(&mut out, v.as_str());
            out.append("\"}");
        },
        RpcMethod::StartLiveChat(v) => {
            out.append(",\"params\":{\"videoId\":\"");
            escape_into(&mut out, v.as_str());
            out.append("\"}");
        },
        RpcMethod::GetSubscriberCount(c) => {
            out.append(",\"params\":{\"channelId\":\"");
            escape_into(&mut out, c.as_str());
            out.append("\"}");
        },
        RpcMethod::Init => {},
        RpcMethod::GetExactSubscriberCount => {},
        RpcMethod::StopLiveChat => {},
    }
    out.append("}");
    assert(out@ =~= spec_request_line(id as nat, *method));
    out
}

// ------------------------------------------------------------------------
// Inbound messages
// ------------------------------------------------------------------------

/// What a response carries: the reply's payload on success, the worker's
/// error text on failure.
#[derive(Debug, PartialEq)]
pub enum RpcOutcome {
    Success(JsonValue),
    Failure(String),
}

/// A decoded inbound line: either an unsolicited push event with its kind
/// and payload, or a reply to the request with the given identifier.
#[derive(Debug, PartialEq)]
pub enum InboundMessage {
    Push { kind: String, payload: JsonValue },
    Response { id: u64, outcome: RpcOutcome },
}

/// A line that is neither a push event nor a response.  Never fatal: the
/// caller logs the line and goes on.
#[derive(Clone, Copy, Debug, PartialEq, Eq, Structural)]
pub struct DecodeError;

/// What a push-shaped document decodes to.  The `event` member must be an
/// object carrying a string under `type`; its `data` member, or null where
/// it has none, is the payload.
pub open spec fn spec_decode_push(ev: JsonValue) -> Result<InboundMessage, DecodeError> {
    match ev {
        JsonValue::Obj(evf) => match obj_lookup(evf@, "type"@) {
            Some(JsonValue::Str(kind)) => Ok(
                InboundMessage::Push {
                    kind,
                    payload: match obj_lookup(evf@, "data"@) {
                        Some(d) => d,
                        None => JsonValue::Null,
                    },
                },
            ),
            _ => Err(DecodeError),
        },
        _ => Err(DecodeError),
    }
}

/// What a response-shaped document decodes to.  The `id` member must be a
/// non-negative integer; a string under `error` means failure, while an
/// absent or null `error` means success with the `result` member (or null
/// where it has none).
pub open spec fn spec_decode_response(fields: Seq<(String, JsonValue)>) -> Result<
    InboundMessage,
    DecodeError,
> {
    match obj_lookup(fields, "id"@) {
        Some(JsonValue::Int(i)) => if i >= 0 {
            match obj_lookup(fields, "error"@) {
                Some(JsonValue::Str(e)) => Ok(
                    InboundMessage::Response { id: i as u64, outcome: RpcOutcome::Failure(e) },
                ),
                Some(JsonValue::Null) => Ok(
                    InboundMessage::Response {
                        id: i as u64,
                        outcome: RpcOutcome::Success(
                            match obj_lookup(fields, "result"@) {
                                Some(r) => r,
                                None => JsonValue::Null,
                            },
                        ),
                    },
                ),
                Some(_) => Err(DecodeError),
                None => Ok(
                    InboundMessage::Response {
                        id: i as u64,
                        outcome: RpcOutcome::Success(
                            match obj_lookup(fields, "result"@) {
                                Some(r) => r,
                                None => JsonValue::Null,
                            },
                        ),
                    },
                ),
            }
        } else {
            Err(DecodeError)
        },
        _ => Err(DecodeError),
    }
}

/// What a parsed document decodes to.  The push shape is probed first, on
/// the presence of the `event` discriminator, so a document carrying both
/// `event` and `id` is a push event, never a response.
pub open spec fn spec_decode(j: JsonValue) -> Result<InboundMessage, DecodeError> {
    match j {
        JsonValue::Obj(fields) => match obj_lookup(fields@, "event"@) {
            Some(ev) => spec_decode_push(ev),
            None => spec_decode_response(fields@),
        },
        _ => Err(DecodeError),
    }
}

/// What one line of text decodes to.
pub open spec fn spec_decode_text(line: Seq<char>) -> Result<InboundMessage, DecodeError> {
    match json_of(line) {
        Some(j) => spec_decode(j),
        None => Err(DecodeError),
    }
}

/// Walks an object's members once and hands back the values under
/// `event`, `id`, `error` and `result`.
fn split_top_fields(fields: Vec<(String, JsonValue)>) -> (r: (
    Option<JsonValue>,
    Option<JsonValue>,
    Option<JsonValue>,
    Option<JsonValue>,
))
    ensures
        r.0 == obj_lookup(fields@, "event"@),
        r.1 == obj_lookup(fields@, "id"@),
        r.2 == obj_lookup(fields@, "error"@),
        r.3 == obj_lookup(fields@, "result"@),
{
    let mut f = fields;
    let mut ev: Option<JsonValue> = None;
    let mut id: Option<JsonValue> = None;
    let mut err: Option<JsonValue> = None;
    let mut res: Option<JsonValue> = None;
    assert(fields@.skip(fields@.len() as int).len() == 0);
    while f.len() > 0
        invariant
            f@.len() <= fields@.len(),
            f@ == fields@.take(f@.len() as int),
            ev == obj_lookup(fields@.skip(f@.len() as int), "event"@),
            id == obj_lookup(fields@.skip(f@.len() as int), "id"@),
            err == obj_lookup(fields@.skip(f@.len() as int), "error"@),
            res == obj_lookup(fields@.skip(f@.len() as int), "result"@),
        decreases f@.len(),
    {
        let ghost j = f@.len() as int;
        assert(1 <= j <= fields@.len());
        proof {
            lemma_top_keys_distinct();
            lemma_lookup_step(fields@, j, "event"@);
            lemma_lookup_step(fields@, j, "id"@);
            lemma_lookup_step(fields@, j, "error"@);
            lemma_lookup_step(fields@, j, "result"@);
        }
        assert(f@[j - 1] == fields@[j - 1]);
        let popped = f.pop();
        let (k, v) = match popped {
            Some(p) => p,
            None => {
                proof {
                    assert(false);
                }
                (String::new(), JsonValue::Null)
            },
        };
        if crate::json::string_eq_str(&k, "event") {
            ev = Some(v);
        } else if crate::json::string_eq_str(&k, "id") {
            id = Some(v);
        } else if crate::json::string_eq_str(&k, "error") {
            err = Some(v);
        } else if crate::json::string_eq_str(&k, "result") {
            res = Some(v);
        }
        assert(f@ =~= fields@.take(f@.len() as int));
    }
    assert(fields@.skip(0) =~= fields@);
    (ev, id, err, res)
}

/// Walks an event object's members once and hands back the values under
/// `type` and `data`.
fn split_event_fields(fields: Vec<(String, JsonValue)>) -> (r: (
    Option<JsonValue>,
    Option<JsonValue>,
))
    ensures
        r.0 == obj_lookup(fields@, "type"@),
        r.1 == obj_lookup(fields@, "data"@),
{
    let mut f = fields;
    let mut ty: Option<JsonValue> = None;
    let mut data: Option<JsonValue> = None;
    assert(fields@.skip(fields@.len() as int).len() == 0);
    while f.len() > 0
        invariant
            f@.len() <= fields@.len(),
            f@ == fields@.take(f@.len() as int),
            ty == obj_lookup(fields@.skip(f@.len() as int), "type"@),
            data == obj_lookup(fields@.skip(f@.len() as int), "data"@),
        decreases f@.len(),
    {
        let ghost j = f@.len() as int;
        assert(1 <= j <= fields@.len());
        proof {
            lemma_event_keys_distinct();
            lemma_lookup_step(fields@, j, "type"@);
            lemma_lookup_step(fields@, j, "data"@);
        }
        assert(f@[j - 1] == fields@[j - 1]);
        let popped = f.pop();
        let (k, v) = match popped {
            Some(p) => p,
            None => {
                proof {
                    assert(false);
                }
                (String::new(), JsonValue::Null)
            },
        };
        if crate::json::string_eq_str(&k, "type") {
            ty = Some(v);
        } else if crate::json::string_eq_str(&k, "data") {
            data = Some(v);
        }
        assert(f@ =~= fields@.take(f@.len() as int));
    }
    assert(fields@.skip(0) =~= fields@);
    (ty, data)
}

fn decode_push(ev: JsonValue) -> (r: Result<InboundMessage, DecodeError>)
    ensures
        r == spec_decode_push(ev),
{
    match ev {
        JsonValue::Obj(evf) => {
            let ghost gevf = evf@;
            let (ty, data) = split_event_fields(evf);
            match ty {
                Some(tyv) => match tyv {
                    JsonValue::Str(kind) => Ok(
                        InboundMessage::Push {
                            kind,
                            payload: match data {
                                Some(d) => d,
                                None => JsonValue::Null,
                            },
                        },
                    ),
                    _ => Err(DecodeError),
                },
                None => Err(DecodeError),
            }
        },
        _ => Err(DecodeError),
    }
}

fn decode_response(id: Option<JsonValue>, err: Option<JsonValue>, res: Option<JsonValue>, Ghost(
    fields,
): Ghost<Seq<(String, JsonValue)>>) -> (r: Result<InboundMessage, DecodeError>)
    requires
        id == obj_lookup(fields, "id"@),
        err == obj_lookup(fields, "error"@),
        res == obj_lookup(fields, "result"@),
    ensures
        r == spec_decode_response(fields),
{
    match id {
        Some(idv) => match idv {
            JsonValue::Int(i) => {
                if i >= 0 {
                    match err {
                        Some(errv) => match errv {
                            JsonValue::Str(e) => Ok(
                                InboundMessage::Response {
                                    id: i as u64,
                                    outcome: RpcOutcome::Failure(e),
                                },
                            ),
                            JsonValue::Null => Ok(
                                InboundMessage::Response {
                                    id: i as u64,
                                    outcome: RpcOutcome::Success(
                                        match res {
                                            Some(r) => r,
                                            None => JsonValue::Null,
                                        },
                                    ),
                                },
                            ),
                            _ => Err(DecodeError),
                        },
                        None => Ok(
                            InboundMessage::Response {
                                id: i as u64,
                                outcome: RpcOutcome::Success(
                                    match res {
                                        Some(r) => r,
                                        None => JsonValue::Null,
                                    },
                                ),
                            },
                        ),
                    }
                } else {
                    Err(DecodeError)
                }
            },
            _ => Err(DecodeError),
        },
        None => Err(DecodeError),
    }
}

/// Decodes one line.  The push shape is probed first (presence of the
/// `event` discriminator), then the response shape (a numeric `id`); a
/// line matching neither is a non-fatal decode error that the caller logs
/// and skips.
pub fn decode_line(line: &str) -> (r: Result<InboundMessage, DecodeError>)
    ensures
        r == spec_decode_text(line@),
{
    match parse_json(line) {
        None => Err(DecodeError),
        Some(j) => match j {
            JsonValue::Obj(fields) => {
                let ghost gfields = fields@;
                let (ev, id, err, res) = split_top_fields(fields);
                match ev {
                    Some(evv) => decode_push(evv),
                    None => decode_response(id, err, res, Ghost(gfields)),
                }
            },
            _ => Err(DecodeError),
        },
    }
}

} // verus!
