//! A model of the JSON documents the client reads and writes, and the trusted
//! boundary to serde_json, which does the parsing and the string escaping.

use vstd::prelude::*;

verus! {

/// The shape of a parsed JSON document, as far as this client reads one:
/// strings, arrays and objects carry their contents. A number is kept only as
/// a mark, since the client never reads one out.
pub enum JsonRep {
    Null,
    Bool(bool),
    Number,
    Str(Seq<char>),
    Arr(Seq<JsonRep>),
    Obj(Map<Seq<char>, JsonRep>),
}

/// The member of an object under a key, if the value is an object and has one.
pub open spec fn obj_get(v: JsonRep, key: Seq<char>) -> Option<JsonRep> {
    match v {
        JsonRep::Obj(m) => if m.contains_key(key) {
            Some(m[key])
        } else {
            None
        },
        _ => None,
    }
}

/// The element of an array at an index, if the value is an array that long.
pub open spec fn arr_at(v: JsonRep, i: int) -> Option<JsonRep> {
    match v {
        JsonRep::Arr(s) => if 0 <= i < s.len() {
            Some(s[i])
        } else {
            None
        },
        _ => None,
    }
}

/// The characters of a value, if it is a string.
pub open spec fn str_of(v: JsonRep) -> Option<Seq<char>> {
    match v {
        JsonRep::Str(t) => Some(t),
        _ => None,
    }
}

#[verifier::external_type_specification]
#[verifier::external_body]
pub struct ExValue(serde_json::Value);

/// What a `serde_json::Value` holds, read into the model above.
pub uninterp spec fn value_rep(v: serde_json::Value) -> JsonRep;

/// What parsing a text as JSON yields: the model of the parsed document, or
/// nothing where the text is not valid JSON. serde_json's parser decides;
/// its result depends on the text alone.
pub uninterp spec fn json_of(s: Seq<char>) -> Option<JsonRep>;

/// The JSON string literal that serde_json writes for a string: enclosing
/// quotes and escapes included. It depends on the characters alone.
pub uninterp spec fn json_quote(s: Seq<char>) -> Seq<char>;

/// Relies on serde_json::from_str::<Value>: parses the text as JSON, yielding
/// the document or a syntax error. The error text is carried, unspecified.
#[verifier::external_body]
pub(crate) fn parse_json(s: &str) -> (r: Result<serde_json::Value, String>)
    ensures
        match r {
            Ok(v) => json_of(s@) == Some(value_rep(v)),
            Err(_) => json_of(s@) is None,
        },
{
    match serde_json::from_str::<serde_json::Value>(s) {
        Ok(v) => Ok(v),
        Err(e) => Err(e.to_string()),
    }
}

/// Relies on serde_json::Value::get with a string index: the member under the
/// key of an object, and nothing on any other value.
#[verifier::external_body]
pub(crate) fn value_get<'a>(v: &'a serde_json::Value, key: &str) -> (r: Option<
    &'a serde_json::Value,
>)
    ensures
        match value_rep(*v) {
            JsonRep::Obj(m) => match r {
                Some(c) => m.contains_key(key@) && value_rep(*c) == m[key@],
                None => !m.contains_key(key@),
            },
            _ => r is None,
        },
{
    v.get(key)
}

/// Relies on serde_json::Value::get with a usize index: the element of an
/// array at the index, and nothing on any other value.
#[verifier::external_body]
pub(crate) fn value_at<'a>(v: &'a serde_json::Value, i: usize) -> (r: Option<
    &'a serde_json::Value,
>)
    ensures
        match value_rep(*v) {
            JsonRep::Arr(s) => match r {
                Some(c) => i < s.len() && value_rep(*c) == s[i as int],
                None => i >= s.len(),
            },
            _ => r is None,
        },
{
    v.get(i)
}

/// Relies on serde_json::Value::as_str: the characters of a string value, and
/// nothing on any other value.
#[verifier::external_body]
pub(crate) fn value_as_str<'a>(v: &'a serde_json::Value) -> (r: Option<&'a str>)
    ensures
        match value_rep(*v) {
            JsonRep::Str(t) => match r {
                Some(u) => u@ == t,
                None => false,
            },
            _ => r is None,
        },
{
    v.as_str()
}

/// Relies on the Display of serde_json::Value on a string value: the JSON
/// string literal for it, quotes and escapes included.
#[verifier::external_body]
pub(crate) fn quote_string(s: &str) -> (r: String)
    ensures
        r@ == json_quote(s@),
{
    serde_json::Value::String(s.to_owned()).to_string()
}

} // verus!
