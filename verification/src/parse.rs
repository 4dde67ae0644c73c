//! Parsing of raw bytes into the untyped structured value.
//!
//! The textual format and its tokenization belong to an outside parser; this
//! module only names what that parser yields and folds it into the library's
//! own value type. Everything downstream of these items is verified against
//! `json_parse` alone.

use vstd::prelude::*;

use crate::value::JsonValue;

verus! {

#[verifier::external_type_specification]
#[verifier::external_body]
pub struct ExValue(serde_json::Value);

/// What parsing a byte buffer yields: `None` when the bytes are not
/// well-formed JSON, or hold a number outside `i64`; the parsed tree
/// otherwise. The result is a function of the bytes alone.
pub uninterp spec fn json_parse(bytes: Seq<u8>) -> Option<JsonValue>;

/// Relies on `serde_json::Value`'s variants: folds a parsed tree into the
/// library's value type, variant by variant, moving the fields along.
/// Numbers that `serde_json::Number::as_i64` cannot represent yield `None`.
#[verifier::external_body]
fn fold_value(v: serde_json::Value) -> Option<JsonValue> {
    match v {
        serde_json::Value::Null => Some(JsonValue::Null),
        serde_json::Value::Bool(b) => Some(JsonValue::Bool(b)),
        serde_json::Value::Number(n) => n.as_i64().map(JsonValue::Int),
        serde_json::Value::String(s) => Some(JsonValue::Str(s)),
        serde_json::Value::Array(xs) => {
            let folded: Option<Vec<JsonValue>> = xs.into_iter().map(fold_value).collect();
            folded.map(JsonValue::Arr)
        },
        serde_json::Value::Object(m) => {
            let folded: Option<Vec<(String, JsonValue)>> =
                m.into_iter().map(|(k, x)| fold_value(x).map(|t| (k, t))).collect();
            folded.map(JsonValue::Obj)
        },
    }
}

/// Relies on `serde_json::from_slice::<serde_json::Value>`: whether the bytes
/// are well-formed JSON, and the tree they parse to, depend on the bytes
/// alone. The error detail is the parser's own message.
#[verifier::external_body]
pub(crate) fn parse_json(bytes: &[u8]) -> (r: Result<JsonValue, String>)
    ensures
        match r {
            Ok(v) => json_parse(bytes@) == Some(v),
            Err(_) => json_parse(bytes@) is None,
        },
{
    match serde_json::from_slice::<serde_json::Value>(bytes) {
        Ok(v) => match fold_value(v) {
            Some(t) => Ok(t),
            None => Err("number out of range for the value model".to_string()),
        },
        Err(e) => Err(e.to_string()),
    }
}

} // verus!
