//! Reading single members out of a JSON document with `serde_json`.

use vstd::prelude::*;

verus! {

/// The string that `serde_json` finds under `key` at the top level of the
/// document `body`. It is `None` where `body` is no JSON document, is not
/// an object, has no member `key`, or holds something other than a string
/// there.
pub uninterp spec fn json_text_member(body: Seq<char>, key: Seq<char>) -> Option<Seq<char>>;

/// The non-negative integer that `serde_json` finds under `key` at the top
/// level of the document `body`. It is `None` where `body` is no JSON
/// document, is not an object, has no member `key`, or holds something
/// other than an integer of the range of `u64` there.
pub uninterp spec fn json_count_member(body: Seq<char>, key: Seq<char>) -> Option<u64>;

/// The characters of an optional string.
pub open spec fn text_of(text: Option<String>) -> Option<Seq<char>> {
    match text {
        Some(s) => Some(s@),
        None => None,
    }
}

/// Parses `body` with `serde_json::from_str` into a `serde_json::Value`,
/// looks `key` up with `Value::get` and reads the member with
/// `Value::as_str`; a parse error, a missing member and a member that is
/// no string all give `None`.
///
/// Trusted: the result is a function of `body` and `key` alone, named
/// [`json_text_member`]; nothing more is claimed of it.
#[verifier::external_body]
pub(crate) fn text_member(body: &str, key: &str) -> (r: Option<String>)
    ensures
        text_of(r) == json_text_member(body@, key@),
{
    match serde_json::from_str::<serde_json::Value>(body) {
        Ok(value) => value.get(key).and_then(serde_json::Value::as_str).map(String::from),
        Err(_) => None,
    }
}

/// Parses `body` with `serde_json::from_str` into a `serde_json::Value`,
/// looks `key` up with `Value::get` and reads the member with
/// `Value::as_u64`; a parse error, a missing member and a member that is
/// no integer from 0 to the largest `u64` all give `None`.
///
/// Trusted: the result is a function of `body` and `key` alone, named
/// [`json_count_member`]; nothing more is claimed of it.
#[verifier::external_body]
pub(crate) fn count_member(body: &str, key: &str) -> (r: Option<u64>)
    ensures
        r == json_count_member(body@, key@),
{
    match serde_json::from_str::<serde_json::Value>(body) {
        Ok(value) => value.get(key).and_then(serde_json::Value::as_u64),
        Err(_) => None,
    }
}

} // verus!
