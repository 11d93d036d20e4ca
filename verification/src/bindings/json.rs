//! What this library relies on from the `serde_json` crate.
//!
//! A [`serde_json::Value`] is carried through as it is. The library asks
//! three things of it: what a byte string parses to, what stands at a
//! pointer, and whether a value is a string.

use vstd::prelude::*;

verus! {

/// `serde_json::Value`, any JSON value.
#[verifier::external_type_specification]
#[verifier::external_body]
pub struct ExValue(serde_json::Value);

/// `serde_json::Error`, why bytes are no JSON, or not the JSON wanted.
#[verifier::external_type_specification]
#[verifier::external_body]
pub struct ExJsonError(serde_json::Error);

/// The value that `serde_json::from_slice` reads from `bytes`, or `None`
/// where the bytes are no JSON document.
pub uninterp spec fn json_parsed(bytes: Seq<u8>) -> Option<serde_json::Value>;

/// The value that `Value::pointer` finds in `v` at the JSON pointer `pointer`.
pub uninterp spec fn json_pointed(v: serde_json::Value, pointer: Seq<char>) -> Option<
    serde_json::Value,
>;

/// The text of `v` where it is a JSON string, as `Value::as_str` gives it.
pub uninterp spec fn json_string(v: serde_json::Value) -> Option<Seq<char>>;

/// `serde_json::from_slice::<Value>`: the outcome depends on the bytes alone.
#[verifier::external_body]
pub(crate) fn json_from_slice(bytes: &[u8]) -> (r: Result<serde_json::Value, serde_json::Error>)
    ensures
        match r {
            Ok(v) => json_parsed(bytes@) == Some(v),
            Err(_) => json_parsed(bytes@) is None,
        },
{
    serde_json::from_slice::<serde_json::Value>(bytes)
}

/// `Value::pointer`, with the value found handed out as a copy.
#[verifier::external_body]
pub(crate) fn json_pointer(v: &serde_json::Value, pointer: &str) -> (r: Option<serde_json::Value>)
    ensures
        r == json_pointed(*v, pointer@),
{
    v.pointer(pointer).cloned()
}

/// `Value::as_str`, with the text handed out as a `String`.
#[verifier::external_body]
pub(crate) fn json_as_string(v: &serde_json::Value) -> (r: Option<String>)
    ensures
        match r {
            Some(s) => json_string(*v) == Some(s@),
            None => json_string(*v) is None,
        },
{
    v.as_str().map(String::from)
}

} // verus!
