//! Trusted binding to serde_json, used where a command must read a
//! field out of a JSON response body.

use vstd::prelude::*;

verus! {

/// The signed integer stored under `key` at the top level of the JSON
/// document `text`, if `text` parses and holds one there.
pub uninterp spec fn json_i64_field(text: Seq<char>, key: Seq<char>) -> Option<i64>;

/// Relies on serde_json::from_str, serde_json::Value::get and
/// serde_json::Value::as_i64: parses `text` as a JSON document and reads
/// the integer field `key` from its top-level object. The intermediate
/// `Value` is opaque here, so only the composed result is named; it is a
/// function of the two arguments alone.
#[verifier::external_body]
pub fn json_read_i64(text: &str, key: &str) -> (r: Option<i64>)
    ensures
        r == json_i64_field(text@, key@),
{
    match serde_json::from_str::<serde_json::Value>(text) {
        Ok(value) => value.get(key).and_then(|field| field.as_i64()),
        Err(_) => None,
    }
}

} // verus!
