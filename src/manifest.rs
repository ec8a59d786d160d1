//! Decoding of JSON manifests, through `serde_json`.

use vstd::prelude::*;

verus! {

#[verifier::external_type_specification]
#[verifier::external_body]
pub struct ExJsonError(serde_json::Error);

/// Whether the bytes decode as one JSON value.
pub uninterp spec fn json_well_formed(b: Seq<u8>) -> bool;

/// The string held by member `key` of the JSON object that the bytes encode;
/// `None` when they encode no object, or the member is missing or not a string.
pub uninterp spec fn json_string_member(b: Seq<u8>, key: Seq<char>) -> Option<Seq<char>>;

/// Relies on `serde_json::from_slice` into a `serde_json::Value`: it fails
/// exactly when the bytes are not one well-formed JSON value.
#[verifier::external_body]
pub(crate) fn check_json(b: &[u8]) -> (r: Result<(), serde_json::Error>)
    ensures
        r is Ok <==> json_well_formed(b@),
{
    serde_json::from_slice::<serde_json::Value>(b).map(|_| ())
}

/// Relies on `serde_json::Value::get` and `serde_json::Value::as_str`, on the
/// value that `serde_json::from_slice` decodes: a top-level string member.
#[verifier::external_body]
pub(crate) fn string_member(b: &[u8], key: &str) -> (r: Option<String>)
    ensures
        match r {
            Some(s) => json_string_member(b@, key@) == Some(s@),
            None => json_string_member(b@, key@) is None,
        },
{
    serde_json::from_slice::<serde_json::Value>(b).ok()?.get(key)?.as_str().map(|s| s.to_string())
}

} // verus!
