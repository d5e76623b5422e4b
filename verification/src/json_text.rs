//! JSON values as text.

use crate::json::{JsonNumber, JsonValue, JsonView};
use vstd::prelude::*;

verus! {

/// The values of `serde_json`.
#[verifier::external_type_specification]
#[verifier::external_body]
pub struct ExSerdeValue(serde_json::Value);

/// The JSON value that a `serde_json::Value` holds.
pub uninterp spec fn serde_view(v: serde_json::Value) -> JsonView;

/// The text that `serde_json` displays for a JSON value: compact, on one line.
pub uninterp spec fn json_text(v: JsonView) -> Seq<char>;

/// Every number in the value is an integer.
pub open spec fn all_integers(v: JsonView) -> bool
    decreases v,
{
    match v {
        JsonView::Number(n) => n is Int,
        JsonView::Array(items) => forall|i: int|
            0 <= i < items.len() ==> all_integers(#[trigger] items[i]),
        JsonView::Object(m) => forall|k: Seq<char>|
            #[trigger] m.contains_key(k) ==> all_integers(m[k]),
        _ => true,
    }
}

/// Builds the `serde_json::Value` that holds the value. It is said to hold just
/// that where all numbers are integers; another number is read from its text, and
/// is null where that is no number.
#[verifier::external_body]
fn to_serde(value: &JsonValue) -> (r: serde_json::Value)
    ensures
        all_integers(value.view()) ==> serde_view(r) == value.view(),
{
    match value {
        JsonValue::Null => serde_json::Value::Null,
        JsonValue::Bool(b) => serde_json::Value::Bool(*b),
        JsonValue::Number(JsonNumber::PosInt(n)) => serde_json::Value::from(*n),
        JsonValue::Number(JsonNumber::NegInt(n)) => serde_json::Value::from(*n),
        JsonValue::Number(JsonNumber::Float(t)) => serde_json::from_str(t).unwrap_or_default(),
        JsonValue::String(s) => serde_json::Value::String(s.clone()),
        JsonValue::Array(items) => serde_json::Value::Array(items.iter().map(to_serde).collect()),
        JsonValue::Object(m) => serde_json::Value::Object(
            m.entries().iter().map(|e| (e.0.clone(), to_serde(&e.1))).collect(),
        ),
    }
}

/// The text that `serde_json::Value` displays goes by the JSON value that it holds.
#[verifier::external_body]
fn serde_text(v: &serde_json::Value) -> (r: String)
    ensures
        r@ == json_text(serde_view(*v)),
{
    v.to_string()
}

/// The value as JSON text. Said of values whose numbers are all integers.
pub fn to_json_text(value: &JsonValue) -> (r: String)
    ensures
        all_integers(value.view()) ==> r@ == json_text(value.view()),
{
    let v = to_serde(value);
    serde_text(&v)
}

} // verus!
