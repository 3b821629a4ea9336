//! JSON text, read and written by `serde_json`.
//!
//! Everything the crate knows about JSON syntax comes through the two
//! functions at the end of this file. What they return is not modelled; it is
//! given a name, and the contracts of the codec are stated over those names.

use crate::json::{option_view, Json, JsonNumber, JsonView};
use serde_json::{Number, Value};
use vstd::prelude::*;

verus! {

/// `serde_json::Value`, which only passes between `serde_json` and the
/// conversions below.
#[verifier::external_type_specification]
#[verifier::external_body]
pub struct ExValue(Value);

/// What `serde_json::from_str` reads from a text as a `serde_json::Value`:
/// the value, or `None` where it reports an error.
pub uninterp spec fn json_parse(text: Seq<char>) -> Option<JsonView>;

/// What `serde_json::to_string` writes for a value, or `None` where it
/// reports an error.
pub uninterp spec fn json_text(value: JsonView) -> Option<Seq<char>>;

/// The text holds no line feed, so it can be sent as one line.
pub open spec fn one_line(text: Seq<char>) -> bool {
    forall|i: int| 0 <= i < text.len() ==> text[i] != '\n'
}

/// Tells the three forms of a `serde_json::Number` apart by `as_u64` and
/// `as_i64`, and keeps the number itself where it is neither.
#[verifier::external_body]
fn number_from_serde(number: Number) -> JsonNumber {
    if let Some(value) = number.as_u64() {
        JsonNumber::PosInt(value)
    } else if let Some(value) = number.as_i64() {
        JsonNumber::NegInt(value)
    } else {
        JsonNumber::Float(number)
    }
}

/// The `serde_json::Number` for a number: `Number::from` for the integers.
#[verifier::external_body]
fn number_to_serde(number: &JsonNumber) -> Number {
    match number {
        JsonNumber::PosInt(value) => Number::from(*value),
        JsonNumber::NegInt(value) => Number::from(*value),
        JsonNumber::Float(number) => number.clone(),
    }
}

/// Turns a `serde_json::Value` into a [`Json`], variant by variant. The
/// members of an object come in the order in which its map yields them.
#[verifier::external_body]
fn json_from_serde(value: Value) -> Json {
    match value {
        Value::Null => Json::Null,
        Value::Bool(flag) => Json::Bool(flag),
        Value::Number(number) => Json::Number(number_from_serde(number)),
        Value::String(text) => Json::String(text),
        Value::Array(items) => Json::Array(items.into_iter().map(json_from_serde).collect()),
        Value::Object(map) => {
            Json::Object(map.into_iter().map(|(name, item)| (name, json_from_serde(item))).collect())
        },
    }
}

/// Turns a [`Json`] into a `serde_json::Value`, variant by variant. The
/// members of an object are inserted into its map in order, so that a later
/// member replaces an earlier one of the same name.
#[verifier::external_body]
fn json_to_serde(value: &Json) -> Value {
    match value {
        Json::Null => Value::Null,
        Json::Bool(flag) => Value::Bool(*flag),
        Json::Number(number) => Value::Number(number_to_serde(number)),
        Json::String(text) => Value::String(text.clone()),
        Json::Array(items) => Value::Array(items.iter().map(json_to_serde).collect()),
        Json::Object(members) => {
            let mut map = serde_json::Map::new();
            for (name, item) in members {
                map.insert(name.clone(), json_to_serde(item));
            }
            Value::Object(map)
        },
    }
}

/// Calls `serde_json::from_str` for a `serde_json::Value`. The contract says
/// only that the outcome is a function of the text: the value read, or
/// nothing where `serde_json` reports an error.
#[verifier::external_body]
pub(crate) fn parse(text: &str) -> (parsed: Option<Json>)
    ensures
        option_view(parsed) == json_parse(text@),
{
    match serde_json::from_str::<Value>(text) {
        Ok(value) => Some(json_from_serde(value)),
        Err(_) => None,
    }
}

/// Calls `serde_json::to_string` on the value. The contract says that the
/// outcome is a function of the value's model: the text written, or nothing
/// where `serde_json` reports an error. It also says that the text holds no
/// line feed: `to_string` writes no white space between tokens, and inside a
/// string it writes every control character as an escape.
#[verifier::external_body]
pub(crate) fn print(value: &Json) -> (printed: Option<String>)
    ensures
        match printed {
            Some(text) => json_text(value@) == Some(text@) && one_line(text@),
            None => json_text(value@) is None,
        },
{
    match serde_json::to_string(&json_to_serde(value)) {
        Ok(text) => Some(text),
        Err(_) => None,
    }
}

} // verus!
