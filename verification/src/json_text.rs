//! JSON text: reading a JSON text into a value and writing a value as
//! compact or pretty-printed JSON text, both done by `serde_json`.

use crate::json::{Json, JsonMap, JsonNumber, JsonValue};
use vstd::prelude::*;
use vstd::string::*;

verus! {

/// The value `serde_json::from_str` reads from a text, when the text is one
/// JSON value.
pub uninterp spec fn json_line_value(text: Seq<char>) -> Option<Json>;

/// The message of the error `serde_json::from_str` reports for a text that is
/// not one JSON value.
pub uninterp spec fn json_line_error(text: Seq<char>) -> Seq<char>;

/// The compact JSON text `serde_json` writes for a value.
pub uninterp spec fn json_text(value: Json) -> Seq<char>;

/// The pretty-printed JSON text `serde_json` writes for a value.
pub uninterp spec fn json_pretty_text(value: Json) -> Seq<char>;

/// The library object of a `serde_json` object, entry for entry.
#[verifier::external_body]
fn map_of_serde(object: &serde_json::Map<String, serde_json::Value>) -> JsonMap {
    let mut map = JsonMap::new();
    for (key, item) in object {
        map.insert(key.clone(), json_of_serde(item));
    }
    map
}

/// The library value of a `serde_json` value, entry for entry: integers that
/// fit `u64` or `i64` stay integers, other numbers keep their JSON text.
#[verifier::external_body]
fn json_of_serde(value: &serde_json::Value) -> JsonValue {
    match value {
        serde_json::Value::Null => JsonValue::Null,
        serde_json::Value::Bool(b) => JsonValue::Bool(*b),
        serde_json::Value::Number(n) => JsonValue::Number(match (n.as_u64(), n.as_i64()) {
            (Some(u), _) => JsonNumber::PosInt(u),
            (None, Some(i)) => JsonNumber::NegInt(i),
            (None, None) => JsonNumber::Float(n.to_string()),
        }),
        serde_json::Value::String(s) => JsonValue::String(s.clone()),
        serde_json::Value::Array(items) => JsonValue::Array(items.iter().map(json_of_serde).collect()),
        serde_json::Value::Object(object) => JsonValue::Object(map_of_serde(object)),
    }
}

/// The `serde_json` object of a library object, entry for entry.
#[verifier::external_body]
fn serde_of_map(map: &JsonMap) -> serde_json::Map<String, serde_json::Value> {
    let mut object = serde_json::Map::new();
    for i in 0..map.len() {
        object.insert(map.key_at(i).clone(), serde_of_json(map.value_at(i)));
    }
    object
}

/// The `serde_json` value of a library value, entry for entry; a number's
/// JSON text is read as a `serde_json` number.
#[verifier::external_body]
pub(crate) fn serde_of_json(value: &JsonValue) -> serde_json::Value {
    match value {
        JsonValue::Null => serde_json::Value::Null,
        JsonValue::Bool(b) => serde_json::Value::Bool(*b),
        JsonValue::Number(JsonNumber::PosInt(n)) => serde_json::Value::from(*n),
        JsonValue::Number(JsonNumber::NegInt(n)) => serde_json::Value::from(*n),
        JsonValue::Number(JsonNumber::Float(t)) => serde_json::from_str(t).unwrap_or_default(),
        JsonValue::String(s) => serde_json::Value::String(s.clone()),
        JsonValue::Array(items) => serde_json::Value::Array(items.iter().map(serde_of_json).collect()),
        JsonValue::Object(map) => serde_json::Value::Object(serde_of_map(map)),
    }
}

/// `serde_json::from_str` reading one JSON value from a text, with a failure
/// turned into its error's message. Claimed: the value read is
/// `json_line_value` of the text, and a failure happens exactly when that is
/// `None`, with the message `json_line_error`.
#[verifier::external_body]
pub(crate) fn parse_json_line(text: &str) -> (r: Result<JsonValue, String>)
    ensures
        match r {
            Ok(v) => json_line_value(text@) == Some(v@),
            Err(m) => json_line_value(text@) is None && m@ == json_line_error(text@),
        },
{
    serde_json::from_str::<serde_json::Value>(text).map(|v| json_of_serde(&v)).map_err(|e| e.to_string())
}

/// The compact JSON text of a value, as `serde_json::Value`'s `Display`
/// writes it. Claimed: the text is `json_text` of the value.
#[verifier::external_body]
pub(crate) fn compact_json_text(value: &JsonValue) -> (r: String)
    ensures
        r@ == json_text(value@),
{
    serde_of_json(value).to_string()
}

/// The pretty-printed JSON text of a value, as `serde_json::Value`'s
/// alternate `Display` (the one `serde_json::to_string_pretty` gives) writes
/// it. Claimed: the text is `json_pretty_text` of the value.
#[verifier::external_body]
pub(crate) fn pretty_json_text(value: &JsonValue) -> (r: String)
    ensures
        r@ == json_pretty_text(value@),
{
    format!("{:#}", serde_of_json(value))
}

} // verus!
