use vstd::prelude::*;

verus! {

/// The loosely-typed structured value of the text encoding (a string, a
/// number, a boolean, null, or a nested structure). Values of this type are
/// produced and consumed by endpoint implementations and carried through the
/// pipeline opaquely.
#[verifier::external_type_specification]
#[verifier::external_body]
pub struct ExValue(serde_json::Value);

/// True when the structured text encoding accepts `s` as the serialization
/// of some value. Names the success of `serde_json::from_str::<Value>`,
/// whose outcome depends on its input text alone.
pub uninterp spec fn json_ok(s: Seq<char>) -> bool;

/// Relies on `serde_json::Value::is_object`: whether the value is an
/// object. Nothing further is assumed of the answer.
pub assume_specification[ serde_json::Value::is_object ](v: &serde_json::Value) -> bool;

/// Relies on `serde_json::to_string`: serializes a structured value to its
/// text form. Nothing is assumed of the produced text; callers state what
/// they do with whatever text comes back.
#[verifier::external_body]
pub(crate) fn value_to_string(v: &serde_json::Value) -> (r: Result<String, String>) {
    match serde_json::to_string(v) {
        Ok(s) => Ok(s),
        Err(e) => Err(e.to_string()),
    }
}

/// Relies on `serde_json::from_str::<Value>`: parses text into a structured
/// value, succeeding exactly on the text the encoding accepts.
#[verifier::external_body]
pub(crate) fn string_to_value(s: &str) -> (r: Result<serde_json::Value, String>)
    ensures
        r is Ok <==> json_ok(s@),
{
    match serde_json::from_str(s) {
        Ok(v) => Ok(v),
        Err(e) => Err(e.to_string()),
    }
}

} // verus!
