//! Reading and writing configuration text: the comment-tolerant parser and
//! the canonical pretty printer, both of outside crates.

use crate::json::{well_formed, Json, JsonNumber, JsonValue};
use vstd::prelude::*;

verus! {

/// `serde_json::Value`: a value of it is carried through, never looked
/// into.
#[verifier::external_type_specification]
#[verifier::external_body]
pub struct ExValue(serde_json::Value);

/// `serde_json::Number`: a value of it is carried through, never looked
/// into.
#[verifier::external_type_specification]
#[verifier::external_body]
pub struct ExNumber(serde_json::Number);

/// What the comment-tolerant parser reads from a text: nothing where the
/// text is no valid document, no tree where the document holds no value,
/// and else the tree.
pub uninterp spec fn jsonc_document(text: Seq<char>) -> Option<Option<Json>>;

/// The text that the pretty printer writes for a tree.
pub uninterp spec fn pretty_text(tree: Json) -> Seq<char>;

/// The model of what a parse returned.
pub open spec fn document_view(document: Option<Option<JsonValue>>) -> Option<Option<Json>> {
    match document {
        None => None,
        Some(None) => Some(None),
        Some(Some(tree)) => Some(Some(tree@)),
    }
}

/// Turns a `serde_json::Number` into a number of this library: an unsigned
/// integer where `as_u64` gives one, else a negative integer where `as_i64`
/// gives one, else the text that `to_string` prints for it. Nothing is
/// claimed of the result.
#[verifier::external_body]
fn lift_number(number: &serde_json::Number) -> JsonNumber {
    match (number.as_u64(), number.as_i64()) {
        (Some(u), _) => JsonNumber::PosInt(u),
        (None, Some(i)) => JsonNumber::NegInt(i),
        (None, None) => JsonNumber::Float(number.to_string()),
    }
}

/// Turns a `serde_json::Value` into a tree of this library, variant by
/// variant; the entries of an object come in the order in which its map
/// hands them out. Nothing is claimed of the result.
#[verifier::external_body]
fn lift(value: &serde_json::Value) -> JsonValue {
    match value {
        serde_json::Value::Null => JsonValue::Null,
        serde_json::Value::Bool(b) => JsonValue::Bool(*b),
        serde_json::Value::Number(n) => JsonValue::Number(lift_number(n)),
        serde_json::Value::String(s) => JsonValue::String(s.clone()),
        serde_json::Value::Array(items) => JsonValue::Array(items.iter().map(lift).collect()),
        serde_json::Value::Object(map) => JsonValue::Object(
            map.iter().map(|(k, v)| (k.clone(), lift(v))).collect(),
        ),
    }
}

/// Turns a number of this library into a `serde_json::Value`: an integer
/// through `Value::from`, a fractional number through `str::parse` and
/// `Number::from_f64`. A text that gives no finite number stays a string.
/// Nothing is claimed of the result.
#[verifier::external_body]
fn lower_number(number: &JsonNumber) -> serde_json::Value {
    match number {
        JsonNumber::PosInt(u) => serde_json::Value::from(*u),
        JsonNumber::NegInt(i) => serde_json::Value::from(*i),
        JsonNumber::Float(t) => match t.parse().ok().and_then(serde_json::Number::from_f64) {
            Some(n) => serde_json::Value::Number(n),
            None => serde_json::Value::String(t.clone()),
        },
    }
}

/// Turns a tree of this library into a `serde_json::Value`, variant by
/// variant; the entries of an object are inserted in their order. Nothing
/// is claimed of the result.
#[verifier::external_body]
fn lower(tree: &JsonValue) -> serde_json::Value {
    match tree {
        JsonValue::Null => serde_json::Value::Null,
        JsonValue::Bool(b) => serde_json::Value::Bool(*b),
        JsonValue::Number(n) => lower_number(n),
        JsonValue::String(s) => serde_json::Value::String(s.clone()),
        JsonValue::Array(items) => serde_json::Value::Array(items.iter().map(lower).collect()),
        JsonValue::Object(entries) => serde_json::Value::Object(
            entries.iter().map(|(k, v)| (k.clone(), lower(v))).collect(),
        ),
    }
}

/// Calls `jsonc_parser::parse_to_serde_value` with the default options,
/// which accept comments, trailing commas and unquoted property names.
///
/// The contract names the result: the same text always reads as the same
/// document. It adds what the crate's value type guarantees of every tree
/// that it returns: an object holds no key twice, and an integer that is
/// not negative is an unsigned one.
#[verifier::external_body]
pub(crate) fn parse_jsonc(text: &str) -> (r: Option<Option<JsonValue>>)
    ensures
        document_view(r) == jsonc_document(text@),
        r matches Some(Some(tree)) ==> well_formed(tree@),
{
    let options = jsonc_parser::ParseOptions::default();
    match jsonc_parser::parse_to_serde_value(text, &options) {
        Ok(Some(value)) => Some(Some(lift(&value))),
        Ok(None) => Some(None),
        Err(_) => None,
    }
}

/// Calls `serde_json::to_string_pretty` on the tree.
///
/// The contract claims two things. The call succeeds: the printer fails
/// only where its writer fails or where a map has a key that is no string,
/// and it writes a `Value`, whose keys are strings, into memory. And the
/// result is named: the same tree always prints as the same text.
#[verifier::external_body]
pub(crate) fn print_pretty(tree: &JsonValue) -> (r: Result<String, String>)
    ensures
        r is Ok,
        r matches Ok(text) ==> text@ == pretty_text(tree@),
{
    serde_json::to_string_pretty(&lower(tree)).map_err(|e| e.to_string())
}

/// Reads a configuration text. A document without a value reads as null.
pub fn parse_config(text: &str) -> (r: Option<JsonValue>)
    ensures
        match jsonc_document(text@) {
            None => r is None,
            Some(None) => r matches Some(tree) && tree@ == Json::Null,
            Some(Some(model)) => r matches Some(tree) && tree@ == model,
        },
        r matches Some(tree) ==> well_formed(tree@),
{
    match parse_jsonc(text) {
        None => None,
        Some(None) => Some(JsonValue::Null),
        Some(Some(tree)) => Some(tree),
    }
}

} // verus!
