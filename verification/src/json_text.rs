//! JSON text: reading a value from text or bytes, and writing a value as
//! text. `serde_json` does both; what it reads and writes is named here.

use vstd::prelude::*;
use serde_json::Value;
use crate::json::{Json, JsonV};

verus! {

/// `serde_json::Value`, carried through opaquely.
#[verifier::external_type_specification]
#[verifier::external_body]
pub struct ExValue(serde_json::Value);

/// The value that `serde_json::from_str` reads in `text`, or `None` where
/// the text is not JSON.
pub uninterp spec fn json_parse(text: Seq<char>) -> Option<JsonV>;

/// The value that `serde_json::from_slice` reads in `bytes`, or `None` where
/// the bytes are not JSON.
pub uninterp spec fn json_parse_bytes(bytes: Seq<u8>) -> Option<JsonV>;

/// The text that `serde_json` writes for the value `v`.
pub uninterp spec fn json_text(v: JsonV) -> Seq<char>;

/// The message that the text `text` carries: the JSON value written in it,
/// or the text itself as a JSON string where it is not JSON.
pub open spec fn text_message(text: Seq<char>) -> JsonV {
    match json_parse(text) {
        Some(v) => v,
        None => JsonV::Str(text),
    }
}

/// A `serde_json::Value` as a [`Json`], variant for variant; a number keeps
/// the text `serde_json` writes for it.
#[verifier::external_body]
fn json_from_value(v: Value) -> Json {
    match v {
        Value::Null => Json::Null,
        Value::Bool(b) => Json::Bool(b),
        Value::Number(n) => Json::Number(n.to_string()),
        Value::String(s) => Json::Str(s),
        Value::Array(a) => Json::Array(a.into_iter().map(json_from_value).collect()),
        Value::Object(m) => Json::Object(m.into_iter().map(|(k, x)| (k, json_from_value(x))).collect()),
    }
}

/// A [`Json`] as a `serde_json::Value`, variant for variant; a number whose
/// text `serde_json` does not read as a number stays a string.
#[verifier::external_body]
fn value_from_json(j: &Json) -> Value {
    match j {
        Json::Null => Value::Null,
        Json::Bool(b) => Value::Bool(*b),
        Json::Number(t) => match t.parse::<serde_json::Number>() {
            Ok(n) => Value::Number(n),
            Err(_) => Value::String(t.clone()),
        },
        Json::Str(s) => Value::String(s.clone()),
        Json::Array(a) => Value::Array(a.iter().map(value_from_json).collect()),
        Json::Object(m) => Value::Object(m.iter().map(|(k, x)| (k.clone(), value_from_json(x))).collect()),
    }
}

/// Reads JSON text with `serde_json::from_str`: the result is what
/// [`json_parse`] names, and `None` exactly where the text is not JSON.
#[verifier::external_body]
pub(crate) fn parse_json(text: &str) -> (r: Option<Json>)
    ensures
        match r {
            Some(j) => json_parse(text@) == Some(j@),
            None => json_parse(text@) is None,
        },
{
    serde_json::from_str::<Value>(text).ok().map(json_from_value)
}

/// Reads JSON bytes with `serde_json::from_slice`: the result is what
/// [`json_parse_bytes`] names, and `None` exactly where the bytes are not
/// JSON.
#[verifier::external_body]
pub(crate) fn parse_json_bytes(bytes: &[u8]) -> (r: Option<Json>)
    ensures
        match r {
            Some(j) => json_parse_bytes(bytes@) == Some(j@),
            None => json_parse_bytes(bytes@) is None,
        },
{
    serde_json::from_slice::<Value>(bytes).ok().map(json_from_value)
}

/// Writes a value as JSON text with `serde_json`'s `to_string`: the result
/// is what [`json_text`] names for the value.
#[verifier::external_body]
pub(crate) fn to_json_text(j: &Json) -> (r: String)
    ensures
        r@ == json_text(j@),
{
    value_from_json(j).to_string()
}

/// The JSON text of the message `msg`, as it is sent.
pub fn write_message(msg: &Json) -> (r: String)
    ensures
        r@ == json_text(msg@),
{
    to_json_text(msg)
}

} // verus!
