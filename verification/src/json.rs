//! Trusted boundary to serde_json: inbound network envelopes carry a JSON
//! payload, opaque to the verifier, and the event translation layer reads it
//! through the small accessors here. Each accessor wraps one serde_json call
//! whose result depends on its arguments alone, so each result is given an
//! uninterpreted spec name; the decode logic downstream is verified against
//! the composition of those names.

use vstd::prelude::*;

verus! {

/// serde_json's JSON value type, declared so it can cross the verified
/// library's signatures; its contents stay opaque to the verifier.
#[verifier::external_type_specification]
#[verifier::external_body]
pub struct ExValue(serde_json::Value);

/// What serde_json::Value::get returns for a string key: `Some` exactly when
/// the value is an object with that key.
pub uninterp spec fn spec_json_field(v: serde_json::Value, key: Seq<char>) -> Option<
    serde_json::Value,
>;

/// What serde_json::Value::get returns for a usize index: `Some` exactly when
/// the value is an array and the index is within it.
pub uninterp spec fn spec_json_element(v: serde_json::Value, index: int) -> Option<
    serde_json::Value,
>;

/// What serde_json::Value::as_i64 returns: `Some` exactly when the value is a
/// number representable as an `i64`.
pub uninterp spec fn spec_json_as_i64(v: serde_json::Value) -> Option<i64>;

/// What serde_json::Value::as_u64 returns: `Some` exactly when the value is a
/// nonnegative integer representable as a `u64`.
pub uninterp spec fn spec_json_as_u64(v: serde_json::Value) -> Option<u64>;

/// What serde_json::Value::as_str returns: `Some` with the characters exactly
/// when the value is a string.
pub uninterp spec fn spec_json_as_str(v: serde_json::Value) -> Option<Seq<char>>;

/// The length serde_json::Value::as_array reveals: `Some` exactly when the
/// value is an array.
pub uninterp spec fn spec_json_array_len(v: serde_json::Value) -> Option<usize>;

/// Relies on serde_json::Value::get with a string index: a pure lookup in the
/// value, named `spec_json_field`.
#[verifier::external_body]
pub(crate) fn json_field<'a>(v: &'a serde_json::Value, key: &str) -> (r: Option<
    &'a serde_json::Value,
>)
    ensures
        r is Some <==> spec_json_field(*v, key@) is Some,
        r matches Some(f) ==> spec_json_field(*v, key@) == Some(*f),
{
    v.get(key)
}

/// Relies on serde_json::Value::get with a usize index: a pure lookup in the
/// value, named `spec_json_element`.
#[verifier::external_body]
pub(crate) fn json_element<'a>(v: &'a serde_json::Value, index: usize) -> (r: Option<
    &'a serde_json::Value,
>)
    ensures
        r is Some <==> spec_json_element(*v, index as int) is Some,
        r matches Some(e) ==> spec_json_element(*v, index as int) == Some(*e),
{
    v.get(index)
}

/// Relies on serde_json::Value::as_i64: a pure reading of the value, named
/// `spec_json_as_i64`.
#[verifier::external_body]
pub(crate) fn json_as_i64(v: &serde_json::Value) -> (r: Option<i64>)
    ensures
        r == spec_json_as_i64(*v),
{
    v.as_i64()
}

/// Relies on serde_json::Value::as_u64: a pure reading of the value, named
/// `spec_json_as_u64`.
#[verifier::external_body]
pub(crate) fn json_as_u64(v: &serde_json::Value) -> (r: Option<u64>)
    ensures
        r == spec_json_as_u64(*v),
{
    v.as_u64()
}

/// Relies on serde_json::Value::as_str, whose result is copied out as an
/// owned string: a pure reading of the value, named `spec_json_as_str`.
#[verifier::external_body]
pub(crate) fn json_as_string(v: &serde_json::Value) -> (r: Option<String>)
    ensures
        r is Some <==> spec_json_as_str(*v) is Some,
        r matches Some(s) ==> spec_json_as_str(*v) == Some(s@),
{
    match v.as_str() {
        Some(s) => Some(s.to_owned()),
        None => None,
    }
}

/// Relies on serde_json::Value::as_array and Vec::len: a pure reading of the
/// value, named `spec_json_array_len`.
#[verifier::external_body]
pub(crate) fn json_array_len(v: &serde_json::Value) -> (r: Option<usize>)
    ensures
        r == spec_json_array_len(*v),
{
    match v.as_array() {
        Some(a) => Some(a.len()),
        None => None,
    }
}

} // verus!
