//! JSON text: reading a document into the library's model and printing the
//! model back, both done by serde_json.

use vstd::prelude::*;
use crate::json::{JsonValue, JsonView};
use serde_json::Value;

verus! {

/// serde_json's document type, carried through without being looked into.
#[verifier::external_type_specification]
#[verifier::external_body]
pub struct ExJsonDocument(serde_json::Value);

/// What serde_json's `from_str` makes of `text` when read as a document:
/// the document, or the text of the parser's error.
pub uninterp spec fn spec_json_parse(text: Seq<char>) -> Result<JsonView, Seq<char>>;

/// What serde_json's `to_string_pretty` prints for the document `v`, or
/// the text of the error met on the way (a number whose text is not a JSON
/// number).
pub uninterp spec fn spec_json_pretty(v: JsonView) -> Result<Seq<char>, Seq<char>>;

/// The view of a parse result.
pub open spec fn parsed_view(r: Result<JsonValue, String>) -> Result<JsonView, Seq<char>> {
    match r {
        Ok(v) => Ok(v@),
        Err(e) => Err(e@),
    }
}

/// The view of a printing result.
pub open spec fn printed_view(r: Result<String, String>) -> Result<Seq<char>, Seq<char>> {
    match r {
        Ok(t) => Ok(t@),
        Err(e) => Err(e@),
    }
}

/// The library's model of a serde_json document: one variant for each of
/// serde_json's, a number by its text, an object's members in the map's
/// order.
#[verifier::external_body]
fn from_document(v: Value) -> JsonValue {
    match v {
        Value::Null => JsonValue::Null,
        Value::Bool(b) => JsonValue::Bool(b),
        Value::Number(n) => JsonValue::Number(n.to_string()),
        Value::String(s) => JsonValue::Str(s),
        Value::Array(a) => JsonValue::Array(a.into_iter().map(from_document).collect()),
        Value::Object(m) => JsonValue::Object(m.into_iter().map(|(k, v)| (k, from_document(v))).collect()),
    }
}

/// The serde_json document of a model: one variant for each of the
/// model's; a number's text is read back by serde_json, whose error is
/// returned when it is not a JSON number.
#[verifier::external_body]
fn to_document(v: JsonValue) -> Result<Value, String> {
    Ok(match v {
        JsonValue::Null => Value::Null,
        JsonValue::Bool(b) => Value::Bool(b),
        JsonValue::Number(t) => Value::Number(t.parse().map_err(|e: serde_json::Error| e.to_string())?),
        JsonValue::Str(s) => Value::String(s),
        JsonValue::Array(a) => Value::Array(a.into_iter().map(to_document).collect::<Result<_, _>>()?),
        JsonValue::Object(m) => Value::Object(m.into_iter().map(|(k, v)| Ok((k, to_document(v)?))).collect::<Result<_, String>>()?),
    })
}

/// Reads `text` as a JSON document (serde_json's `from_str` into its
/// document type, then into the model). The contract claims that the
/// outcome, the document or the error's text, depends on `text` alone.
#[verifier::external_body]
pub fn parse_json(text: &str) -> (r: Result<JsonValue, String>)
    ensures
        parsed_view(r) == spec_json_parse(text@),
{
    match serde_json::from_str::<Value>(text) {
        Ok(v) => Ok(from_document(v)),
        Err(e) => Err(e.to_string()),
    }
}

/// Prints `v` as indented JSON text (serde_json's `to_string_pretty` of the
/// model's document). The contract claims that the outcome, the text or the
/// error's text, depends on `v@` alone.
#[verifier::external_body]
pub fn json_pretty(v: JsonValue) -> (r: Result<String, String>)
    ensures
        printed_view(r) == spec_json_pretty(v@),
{
    let doc = to_document(v)?;
    serde_json::to_string_pretty(&doc).map_err(|e| e.to_string())
}

} // verus!
