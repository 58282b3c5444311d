//! The boundary to serde_json. JSON values are carried through the library
//! as opaque `serde_json::Value`s; each function of serde_json that the
//! library relies on stands behind one trusted wrapper here.
use vstd::prelude::*;

verus! {

#[verifier::external_type_specification]
#[verifier::external_body]
pub struct ExValue(serde_json::Value);

/// Whether a string is well-formed JSON, that is, whether serde_json
/// accepts it as a `Value`.
pub uninterp spec fn spec_json_parses(s: Seq<char>) -> bool;

/// Relies on serde_json::from_str::<Value>: it returns `Ok` exactly on
/// well-formed JSON text, and the outcome depends on the text alone.
#[verifier::external_body]
pub(crate) fn json_from_str(s: &str) -> (r: Option<serde_json::Value>)
    ensures
        r is Some <==> spec_json_parses(s@),
{
    match serde_json::from_str::<serde_json::Value>(s) {
        Ok(v) => Some(v),
        Err(_) => None,
    }
}

/// Relies on serde_json::Value::get: `Some` of the member named `key` when
/// the value is an object with that member, `None` otherwise. The member is
/// handed out as an owned copy.
#[verifier::external_body]
pub(crate) fn json_get_cloned(v: &serde_json::Value, key: &str) -> (r: Option<serde_json::Value>) {
    v.get(key).cloned()
}

/// Relies on serde_json::Value::as_str: `Some` of the text when the value
/// is a JSON string, `None` otherwise.
#[verifier::external_body]
pub(crate) fn json_as_string(v: &serde_json::Value) -> (r: Option<String>) {
    match v.as_str() {
        Some(s) => Some(s.to_string()),
        None => None,
    }
}

/// Relies on serde_json::Value::as_bool: `Some` of the boolean when the
/// value is a JSON boolean, `None` otherwise.
#[verifier::external_body]
pub(crate) fn json_as_bool(v: &serde_json::Value) -> (r: Option<bool>) {
    v.as_bool()
}

/// Relies on serde_json::Value::is_null: whether the value is JSON `null`.
#[verifier::external_body]
pub(crate) fn json_is_null(v: &serde_json::Value) -> (r: bool) {
    v.is_null()
}

/// Relies on serde_json::Value::as_array: `Some` of the elements when the
/// value is a JSON array, `None` otherwise. The elements are handed out as
/// owned copies.
#[verifier::external_body]
pub(crate) fn json_as_array(v: &serde_json::Value) -> (r: Option<Vec<serde_json::Value>>) {
    match v.as_array() {
        Some(a) => Some(a.to_vec()),
        None => None,
    }
}

} // verus!
