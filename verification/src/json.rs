//! Trusted declarations for the JSON values that flow through the library.
//!
//! JSON payloads (tool arguments, tool input schemas, exported documents)
//! are carried as `serde_json` values. The library never looks inside such
//! a value except through the trusted items below.

use vstd::prelude::*;

verus! {

#[verifier::external_type_specification]
#[verifier::external_body]
pub struct ExValue(serde_json::Value);

#[verifier::external_type_specification]
#[verifier::external_body]
#[verifier::reject_recursive_types(K)]
#[verifier::reject_recursive_types(V)]
pub struct ExJsonMap<K, V>(serde_json::Map<K, V>);

/// Whether a JSON value is an object, as `serde_json::Value::is_object`
/// reports it.
pub uninterp spec fn json_is_object(v: serde_json::Value) -> bool;

/// The map a JSON object value holds: what `serde_json::Value::as_object`
/// returns for it.
pub uninterp spec fn object_map_of(v: serde_json::Value) -> serde_json::Map<
    String,
    serde_json::Value,
>;

pub assume_specification[ serde_json::Value::is_object ](v: &serde_json::Value) -> (r: bool)
    ensures
        r == json_is_object(*v),
;

/// Relies on serde_json::Value: the Object variant, and only it, carries a
/// JSON object map, and the map handed back is that very map.
#[verifier::external_body]
pub fn value_into_object(v: serde_json::Value) -> (r: Option<
    serde_json::Map<String, serde_json::Value>,
>)
    ensures
        r is Some <==> json_is_object(v),
        r matches Some(m) ==> m == object_map_of(v),
{
    match v {
        serde_json::Value::Object(m) => Some(m),
        _ => None,
    }
}

/// The pretty-printed form of a JSON text: `Some` exactly when the text is
/// valid JSON, in which case it is what `serde_json::to_string_pretty`
/// renders for the parsed value. Both steps depend on the text alone.
pub uninterp spec fn pretty_json_of(s: Seq<char>) -> Option<Seq<char>>;

/// Whether a text is valid JSON.
pub open spec fn is_valid_json(s: Seq<char>) -> bool {
    pretty_json_of(s) is Some
}

/// Relies on serde_json::from_str, which succeeds exactly on valid JSON
/// text, and serde_json::to_string_pretty, which never fails on a plain
/// JSON value.
#[verifier::external_body]
pub fn pretty_printed_json(data: &str) -> (r: Option<String>)
    ensures
        r is Some <==> is_valid_json(data@),
        r matches Some(p) ==> pretty_json_of(data@) == Some(p@),
{
    match serde_json::from_str::<serde_json::Value>(data) {
        Ok(v) => serde_json::to_string_pretty(&v).ok(),
        Err(_) => None,
    }
}

/// Relies on serde_json::from_str, which succeeds exactly on valid JSON
/// text; the error branch carries serde_json's own message.
#[verifier::external_body]
pub fn validate_json(data: &str) -> (r: Result<(), String>)
    ensures
        r is Ok <==> is_valid_json(data@),
{
    match serde_json::from_str::<serde_json::Value>(data) {
        Ok(_) => Ok(()),
        Err(e) => Err(e.to_string()),
    }
}

} // verus!
