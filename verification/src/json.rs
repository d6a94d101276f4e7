use vstd::prelude::*;

verus! {

/// A JSON value as the library models it.  Numbers are kept as 64-bit
/// signed integers, the only numeric shape the worker protocol uses; a
/// number outside that range (or with a fractional part) is remembered as
/// `OtherNumber` so that shape checks can still see it.  Objects keep their
/// members as a sequence of key/value pairs with distinct keys.
#[derive(Debug, PartialEq)]
pub enum JsonValue {
    Null,
    Bool(bool),
    Int(i64),
    /// A number the model does not represent exactly: a fraction, or an
    /// integer outside the 64-bit signed range.
    OtherNumber,
    Str(String),
    Arr(Vec<JsonValue>),
    Obj(Vec<(String, JsonValue)>),
}

/// The value under `key` in an object's member list: the first pair whose
/// key matches, if any.
pub open spec fn obj_lookup(fields: Seq<(String, JsonValue)>, key: Seq<char>) -> Option<JsonValue>
    decreases fields.len(),
{
    if fields.len() == 0 {
        None
    } else if fields[0].0@ == key {
        Some(fields[0].1)
    } else {
        obj_lookup(fields.drop_first(), key)
    }
}

/// What the parser returns for a given line of text: `None` where the line
/// is not a JSON document the model can hold.
pub uninterp spec fn json_of(s: Seq<char>) -> Option<JsonValue>;

/// Relies on serde_json::from_str::<serde_json::Value>: parses one line of
/// text as a JSON document.  The result is a function of the text alone,
/// and the conversion into the library's model is deterministic, so the
/// outcome deserves a name: `json_of`.
#[verifier::external_body]
pub(crate) fn parse_json(s: &str) -> (r: Option<JsonValue>)
    ensures
        r == json_of(s@),
{
    match serde_json::from_str::<serde_json::Value>(s) {
        Ok(v) => Some(convert_value(&v)),
        Err(_) => None,
    }
}

/// Relies on the shape of serde_json::Value: moves serde_json's value tree
/// into the library's model, one constructor at a time, and on
/// serde_json::Number::as_i64 to tell numbers in the 64-bit signed range
/// apart from all others.
#[verifier::external_body]
fn convert_value(v: &serde_json::Value) -> JsonValue {
    match v {
        serde_json::Value::Null => JsonValue::Null,
        serde_json::Value::Bool(b) => JsonValue::Bool(*b),
        serde_json::Value::Number(n) => match n.as_i64() {
            Some(i) => JsonValue::Int(i),
            None => JsonValue::OtherNumber,
        },
        serde_json::Value::String(s) => JsonValue::Str(s.clone()),
        serde_json::Value::Array(a) => JsonValue::Arr(a.iter().map(convert_value).collect()),
        serde_json::Value::Object(o) => JsonValue::Obj(
            o.iter().map(|(k, val)| (k.clone(), convert_value(val))).collect(),
        ),
    }
}

/// The declared shape of serde_json's value type, so that the conversion
/// above may name it.
#[verifier::external_type_specification]
#[verifier::external_body]
pub struct ExValue(serde_json::Value);

/// Compares a `String` with a borrowed string slice by their character
/// sequences.
pub fn string_eq_str(s: &String, t: &str) -> (r: bool)
    ensures
        r == (s@ == t@),
{
    let t2: String = t.to_owned();
    s.eq(&t2)
}

/// Looks `key` up in an object's member list.
pub fn obj_get<'a>(fields: &'a Vec<(String, JsonValue)>, key: &str) -> (r: Option<&'a JsonValue>)
    ensures
        match r {
            Some(v) => obj_lookup(fields@, key@) == Some(*v),
            None => obj_lookup(fields@, key@) is None,
        },
{
    let mut i: usize = 0;
    assert(fields@.skip(0) =~= fields@);
    while i < fields.len()
        invariant
            0 <= i <= fields@.len(),
            obj_lookup(fields@, key@) == obj_lookup(fields@.skip(i as int), key@),
        decreases fields@.len() - i,
    {
        assert(fields@.skip(i as int)[0] == fields@[i as int]);
        if string_eq_str(&fields[i].0, key) {
            return Some(&fields[i].1);
        }
        assert(fields@.skip(i as int).drop_first() =~= fields@.skip(i as int + 1));
        i = i + 1;
    }
    assert(fields@.skip(i as int).len() == 0);
    None
}

} // verus!
