//! The JSON values that cross the tool boundary, and the three operations of
//! `serde_json` the crate performs on them.

use vstd::prelude::*;

verus! {

/// `serde_json::Value`, a JSON value. Nothing inside it is visible here.
#[verifier::external_type_specification]
#[verifier::external_body]
pub struct ExJsonValue(serde_json::Value);

/// `serde_json::Error`, the reason why reading or writing JSON failed.
#[verifier::external_type_specification]
#[verifier::external_body]
pub struct ExJsonError(serde_json::Error);

/// The compact JSON text of a value, as `serde_json::to_vec` writes it:
/// `null` for the null value, `{}` for an object without members. `None`
/// where serializing fails.
pub uninterp spec fn json_text(v: serde_json::Value) -> Option<Seq<u8>>;

/// The pretty-printed JSON text of a value, as `serde_json::to_string_pretty`
/// writes it. `None` where serializing fails.
pub uninterp spec fn json_pretty(v: serde_json::Value) -> Option<Seq<char>>;

/// The value that `serde_json::from_slice` reads from a byte sequence.
/// `None` where the bytes are not one JSON document.
pub uninterp spec fn json_value(bytes: Seq<u8>) -> Option<serde_json::Value>;

/// `serde_json::to_vec` on a value: its compact JSON text, which depends on
/// the value alone.
#[verifier::external_body]
pub(crate) fn json_to_vec(v: &serde_json::Value) -> (r: Result<Vec<u8>, serde_json::Error>)
    ensures
        match r {
            Ok(b) => json_text(*v) == Some(b@),
            Err(_) => json_text(*v) is None,
        },
{
    serde_json::to_vec(v)
}

/// `serde_json::to_string_pretty` on a value: its indented JSON text, which
/// depends on the value alone.
#[verifier::external_body]
pub(crate) fn json_to_string_pretty(v: &serde_json::Value) -> (r: Result<
    String,
    serde_json::Error,
>)
    ensures
        match r {
            Ok(s) => json_pretty(*v) == Some(s@),
            Err(_) => json_pretty(*v) is None,
        },
{
    serde_json::to_string_pretty(v)
}

/// `serde_json::from_slice` into a value: succeeds exactly on the byte
/// sequences that hold one JSON document, and the value read depends on the
/// bytes alone.
#[verifier::external_body]
pub(crate) fn json_from_slice(bytes: &[u8]) -> (r: Result<serde_json::Value, serde_json::Error>)
    ensures
        match r {
            Ok(v) => json_value(bytes@) == Some(v),
            Err(_) => json_value(bytes@) is None,
        },
{
    serde_json::from_slice::<serde_json::Value>(bytes)
}

} // verus!
