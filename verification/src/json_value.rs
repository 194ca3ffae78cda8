//! The boundary to `serde_json`: parsed JSON values are carried through the
//! dispatcher as opaque `serde_json::Value`s, and the few readings the
//! protocol needs go through the wrappers here.
//!
//! Each outside call computes a function of its arguments alone, so each
//! result carries a name (`jv_parse`, `jv_get`, ...); the dispatcher's
//! contracts are stated over those names, which makes every response a
//! fixed function of the request bytes.

use vstd::prelude::*;

verus! {

/// Declares `serde_json::Value` so it can stand in signatures and fields;
/// values of it are opaque and only the wrappers below read them.
#[verifier::external_type_specification]
#[verifier::external_body]
pub struct ExValue(serde_json::Value);

/// What `serde_json::from_slice::<serde_json::Value>` decodes from the
/// given bytes; `None` where the bytes are no JSON document.
pub uninterp spec fn jv_parse(bytes: Seq<u8>) -> Option<serde_json::Value>;

/// What `serde_json::Value::get` finds under the given key; `None` where
/// the value is no object or lacks the key.
pub uninterp spec fn jv_get(v: serde_json::Value, key: Seq<char>) -> Option<serde_json::Value>;

/// The characters of the value, where it is a JSON string.
pub uninterp spec fn jv_str(v: serde_json::Value) -> Option<Seq<char>>;

/// The number held by the value, where it is an integer that fits in
/// `u64`.
pub uninterp spec fn jv_u64(v: serde_json::Value) -> Option<u64>;

/// Whether the value is JSON `null`.
pub uninterp spec fn jv_null(v: serde_json::Value) -> bool;

/// The string found under the given key: a lookup followed by the string
/// reading.
pub open spec fn jv_get_str(v: serde_json::Value, key: Seq<char>) -> Option<Seq<char>> {
    match jv_get(v, key) {
        Some(f) => jv_str(f),
        None => None,
    }
}

/// Reads the string under the given key of a JSON value: `Some` exactly
/// where the key holds a string, and then that string.
pub fn get_str_field(v: &serde_json::Value, key: &str) -> (r: Option<String>)
    ensures
        r is Some <==> jv_get_str(*v, key@) is Some,
        r matches Some(s) ==> jv_get_str(*v, key@) == Some(s@),
{
    match json_get(v, key) {
        Some(f) => json_as_str(&f),
        None => None,
    }
}

/// Relies on `serde_json::from_slice::<serde_json::Value>`: decodes one
/// JSON document from bytes, or fails; the result depends on the bytes
/// alone.
#[verifier::external_body]
pub fn json_parse(bytes: &[u8]) -> (r: Option<serde_json::Value>)
    ensures
        r == jv_parse(bytes@),
{
    match serde_json::from_slice(bytes) {
        Ok(v) => Some(v),
        Err(_) => None,
    }
}

/// Relies on `serde_json::Value::get`: looks a key up in a JSON object,
/// `None` when the value is no object or lacks the key; the result depends
/// on the value and the key alone.
#[verifier::external_body]
pub fn json_get(v: &serde_json::Value, key: &str) -> (r: Option<serde_json::Value>)
    ensures
        r == jv_get(*v, key@),
{
    match v.get(key) {
        Some(inner) => Some(inner.clone()),
        None => None,
    }
}

/// Relies on `serde_json::Value::as_str`: the string content when the
/// value is a JSON string, `None` otherwise; the result depends on the
/// value alone.
#[verifier::external_body]
pub fn json_as_str(v: &serde_json::Value) -> (r: Option<String>)
    ensures
        r is Some <==> jv_str(*v) is Some,
        r matches Some(s) ==> jv_str(*v) == Some(s@),
{
    match v.as_str() {
        Some(s) => Some(s.to_owned()),
        None => None,
    }
}

/// Relies on `serde_json::Value::as_u64`: the number when the value is an
/// integer that fits in `u64`, `None` otherwise; the result depends on the
/// value alone.
#[verifier::external_body]
pub fn json_as_u64(v: &serde_json::Value) -> (r: Option<u64>)
    ensures
        r == jv_u64(*v),
{
    v.as_u64()
}

/// Relies on `serde_json::Value::is_null`: whether the value is JSON
/// `null`; the result depends on the value alone.
#[verifier::external_body]
pub fn json_is_null(v: &serde_json::Value) -> (r: bool)
    ensures
        r == jv_null(*v),
{
    v.is_null()
}

} // verus!
