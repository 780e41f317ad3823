use vstd::prelude::*;
use crate::json::{JVal, JsonValue};

verus! {

/// Declares serde_json's value type, so the trusted parsing boundary can
/// hand it through; the library never looks inside one.
#[verifier::external_type_specification]
#[verifier::external_body]
pub struct ExValue(serde_json::Value);

/// The tree a `serde_json::Value` holds, in the library's model; numbers are
/// the tokens serde_json prints for them.
pub uninterp spec fn json_model(v: serde_json::Value) -> JVal;

/// What parsing a text as JSON yields: `None` when the text is not JSON,
/// otherwise the parsed tree. Parsing is a function of the text alone.
pub uninterp spec fn parsed_json(s: Seq<char>) -> Option<JVal>;

/// Relies on `serde_json::from_str::<serde_json::Value>`: whether a text
/// parses as JSON, and the value it parses to, depend on the text alone.
#[verifier::external_body]
fn parse_value(s: &str) -> (r: Result<serde_json::Value, String>)
    ensures
        (r is Ok <==> parsed_json(s@) is Some),
        (r matches Ok(v) ==> parsed_json(s@) == Some(json_model(v))),
{
    serde_json::from_str(s).map_err(|e| format!("{}", e))
}

/// Relies on the variants of `serde_json::Value`: rebuilds the same tree in
/// the library's own value type, arm by arm, keeping each number as the token
/// serde_json prints for it.
#[verifier::external_body]
fn value_to_model(v: serde_json::Value) -> (r: JsonValue)
    ensures
        r@ == json_model(v),
{
    match v {
        serde_json::Value::Null => JsonValue::Null,
        serde_json::Value::Bool(b) => JsonValue::Bool(b),
        serde_json::Value::Number(n) => JsonValue::Num(n.to_string()),
        serde_json::Value::String(s) => JsonValue::Str(s),
        serde_json::Value::Array(items) => JsonValue::Arr(
            items.into_iter().map(value_to_model).collect(),
        ),
        serde_json::Value::Object(entries) => JsonValue::Obj(
            entries.into_iter().map(|(k, x)| (k, value_to_model(x))).collect(),
        ),
    }
}

/// Parses a JSON text into the library's value model; for text that is not
/// JSON, returns serde_json's error message.
pub fn parse_json(s: &str) -> (r: Result<JsonValue, String>)
    ensures
        (r is Ok <==> parsed_json(s@) is Some),
        (r matches Ok(v) ==> parsed_json(s@) == Some(v@)),
{
    match parse_value(s) {
        Ok(v) => Ok(value_to_model(v)),
        Err(e) => Err(e),
    }
}

} // verus!
