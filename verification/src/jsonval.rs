//! A trusted facade over `serde_json`, for the few service responses that
//! arrive as JSON rather than markup.
//!
//! Decoding is deterministic: what a field query returns is a function of
//! the document text and the path alone, so each query below carries a
//! named result that the decoders' contracts speak of.  Nothing is assumed
//! about the named values themselves.

use vstd::prelude::*;
use serde_json::Value;

verus! {

// ---------------------------------------------------------------------------
// Named query results
// ---------------------------------------------------------------------------

/// The document parses as JSON at all.
pub uninterp spec fn json_valid(doc: Seq<char>) -> bool;

/// The top-level object has a member under `key`.
pub uninterp spec fn json_has_field(doc: Seq<char>, key: Seq<char>) -> bool;

/// The member under `key`, as an unsigned integer.
pub uninterp spec fn json_u64_field(doc: Seq<char>, key: Seq<char>) -> Option<u64>;

/// The member under `key`, as a signed integer.
pub uninterp spec fn json_i64_field(doc: Seq<char>, key: Seq<char>) -> Option<i64>;

/// The member under `key`, as a string.
pub uninterp spec fn json_str_field(doc: Seq<char>, key: Seq<char>) -> Option<Seq<char>>;

/// The member under `key`, as a number rendered to decimal text.
pub uninterp spec fn json_num_text_field(doc: Seq<char>, key: Seq<char>) -> Option<Seq<char>>;

/// The length of the array under `key`.
pub uninterp spec fn json_list_len(doc: Seq<char>, key: Seq<char>) -> Option<nat>;

/// The member `sub` of the `i`-th element of the array under `key`, as an
/// unsigned integer.
pub uninterp spec fn json_item_u64(doc: Seq<char>, key: Seq<char>, i: int, sub: Seq<char>) -> Option<
    u64,
>;

/// The member `sub` of the `i`-th element of the array under `key`, as a
/// string.
pub uninterp spec fn json_item_str(doc: Seq<char>, key: Seq<char>, i: int, sub: Seq<char>) -> Option<
    Seq<char>,
>;

/// The length of the document itself read as an array.
pub uninterp spec fn json_root_list_len(doc: Seq<char>) -> Option<nat>;

/// The `i`-th element of the document read as an array, as a string.
pub uninterp spec fn json_root_item_str(doc: Seq<char>, i: int) -> Option<Seq<char>>;

// ---------------------------------------------------------------------------
// Queries.  Each body parses the document and walks to one value.
// ---------------------------------------------------------------------------

/// Relies on serde_json::from_str: whether the document parses.
#[verifier::external_body]
pub(crate) fn valid_json(doc: &str) -> (r: bool)
    ensures
        r == json_valid(doc@),
{
    serde_json::from_str::<Value>(doc).is_ok()
}

/// Relies on serde_json::from_str and Value::get: whether the member
/// exists.
#[verifier::external_body]
pub(crate) fn has_field(doc: &str, key: &str) -> (r: bool)
    ensures
        r == json_has_field(doc@, key@),
{
    match serde_json::from_str::<Value>(doc) {
        Ok(v) => v.get(key).is_some(),
        Err(_) => false,
    }
}

/// Relies on serde_json's from_str, Value::get and Value::as_u64.
#[verifier::external_body]
pub(crate) fn u64_field(doc: &str, key: &str) -> (r: Option<u64>)
    ensures
        r == json_u64_field(doc@, key@),
{
    match serde_json::from_str::<Value>(doc) {
        Ok(v) => v.get(key).and_then(|x| x.as_u64()),
        Err(_) => None,
    }
}

/// Relies on serde_json's from_str, Value::get and Value::as_i64.
#[verifier::external_body]
pub(crate) fn i64_field(doc: &str, key: &str) -> (r: Option<i64>)
    ensures
        r == json_i64_field(doc@, key@),
{
    match serde_json::from_str::<Value>(doc) {
        Ok(v) => v.get(key).and_then(|x| x.as_i64()),
        Err(_) => None,
    }
}

/// Relies on serde_json's from_str, Value::get and Value::as_str.
#[verifier::external_body]
pub(crate) fn str_field(doc: &str, key: &str) -> (r: Option<String>)
    ensures
        r is Some <==> json_str_field(doc@, key@) is Some,
        r matches Some(x) ==> json_str_field(doc@, key@) == Some(x@),
{
    match serde_json::from_str::<Value>(doc) {
        Ok(v) => v.get(key).and_then(|x| x.as_str().map(String::from)),
        Err(_) => None,
    }
}

/// Relies on serde_json's from_str, Value::get and Value::as_f64, the
/// number rendered as decimal text so that verified code can parse it
/// into a fixed-point value.
#[verifier::external_body]
pub(crate) fn num_text_field(doc: &str, key: &str) -> (r: Option<String>)
    ensures
        r is Some <==> json_num_text_field(doc@, key@) is Some,
        r matches Some(x) ==> json_num_text_field(doc@, key@) == Some(x@),
{
    match serde_json::from_str::<Value>(doc) {
        Ok(v) => v.get(key).and_then(|x| x.as_f64()).map(|f| format!("{}", f)),
        Err(_) => None,
    }
}

/// Relies on serde_json's from_str, Value::get and Value::as_array.
#[verifier::external_body]
pub(crate) fn list_len(doc: &str, key: &str) -> (r: Option<usize>)
    ensures
        r is Some <==> json_list_len(doc@, key@) is Some,
        r matches Some(n) ==> json_list_len(doc@, key@) == Some(n as nat),
{
    match serde_json::from_str::<Value>(doc) {
        Ok(v) => v.get(key).and_then(|x| x.as_array().map(|a| a.len())),
        Err(_) => None,
    }
}

/// Relies on serde_json's from_str, Value::get and Value::as_u64, walking
/// to one array element's member.
#[verifier::external_body]
pub(crate) fn item_u64(doc: &str, key: &str, i: usize, sub: &str) -> (r: Option<u64>)
    ensures
        r == json_item_u64(doc@, key@, i as int, sub@),
{
    match serde_json::from_str::<Value>(doc) {
        Ok(v) => v.get(key).and_then(|a| a.get(i)).and_then(|o| o.get(sub)).and_then(
            |x| x.as_u64(),
        ),
        Err(_) => None,
    }
}

/// Relies on serde_json's from_str, Value::get and Value::as_str, walking
/// to one array element's member.
#[verifier::external_body]
pub(crate) fn item_str(doc: &str, key: &str, i: usize, sub: &str) -> (r: Option<String>)
    ensures
        r is Some <==> json_item_str(doc@, key@, i as int, sub@) is Some,
        r matches Some(x) ==> json_item_str(doc@, key@, i as int, sub@) == Some(x@),
{
    match serde_json::from_str::<Value>(doc) {
        Ok(v) => v.get(key).and_then(|a| a.get(i)).and_then(|o| o.get(sub)).and_then(
            |x| x.as_str().map(String::from),
        ),
        Err(_) => None,
    }
}

/// Relies on serde_json's from_str and Value::as_array, on the document
/// itself.
#[verifier::external_body]
pub(crate) fn root_list_len(doc: &str) -> (r: Option<usize>)
    ensures
        r is Some <==> json_root_list_len(doc@) is Some,
        r matches Some(n) ==> json_root_list_len(doc@) == Some(n as nat),
{
    match serde_json::from_str::<Value>(doc) {
        Ok(v) => v.as_array().map(|a| a.len()),
        Err(_) => None,
    }
}

/// Relies on serde_json's from_str, Value::get and Value::as_str, on the
/// document read as an array.
#[verifier::external_body]
pub(crate) fn root_item_str(doc: &str, i: usize) -> (r: Option<String>)
    ensures
        r is Some <==> json_root_item_str(doc@, i as int) is Some,
        r matches Some(x) ==> json_root_item_str(doc@, i as int) == Some(x@),
{
    match serde_json::from_str::<Value>(doc) {
        Ok(v) => v.get(i).and_then(|x| x.as_str().map(String::from)),
        Err(_) => None,
    }
}

} // verus!
