//! Reading JSON documents. A document is handled as its bytes; what a
//! member holds is looked up by the member's name.

use serde_json::Value;
use vstd::prelude::*;

use crate::text::text_views;

verus! {

/// The names of the members of the JSON object `doc`, each once; `None`
/// where `doc` is not the text of a JSON object.
pub uninterp spec fn json_member_names(doc: Seq<u8>) -> Option<Seq<Seq<char>>>;

/// The string that the member `name` of the JSON object `doc` holds; `None`
/// where `doc` has no such member or the member is not a string.
pub uninterp spec fn json_text(doc: Seq<u8>, name: Seq<char>) -> Option<Seq<char>>;

/// The integer that the member `name` of `doc` holds; `None` where there is
/// no such member or it is not an integer within the range of `i64`.
pub uninterp spec fn json_integer(doc: Seq<u8>, name: Seq<char>) -> Option<i64>;

/// The boolean that the member `name` of `doc` holds; `None` where there is
/// no such member or it is not a boolean.
pub uninterp spec fn json_flag(doc: Seq<u8>, name: Seq<char>) -> Option<bool>;

/// The strings of the array that the member `name` of `doc` holds; `None`
/// where there is no such member, it is not an array, or one of its elements
/// is not a string.
pub uninterp spec fn json_text_list(doc: Seq<u8>, name: Seq<char>) -> Option<Seq<Seq<char>>>;

/// The JSON text of the object that the member `name` of `doc` holds; `None`
/// where there is no such member or it is not an object.
pub uninterp spec fn json_object(doc: Seq<u8>, name: Seq<char>) -> Option<Seq<u8>>;

/// The JSON texts of the elements of the array that the member `name` of
/// `doc` holds; `None` where there is no such member or it is not an array.
pub uninterp spec fn json_list(doc: Seq<u8>, name: Seq<char>) -> Option<Seq<Seq<u8>>>;

/// The views of a list of byte vectors.
pub open spec fn byte_views(list: Seq<Vec<u8>>) -> Seq<Seq<u8>> {
    Seq::new(list.len(), |i: int| list[i]@)
}

/// Parses with `serde_json::from_slice` and lists the keys of the object
/// with `serde_json::Map::keys`. A document parses to the same value every
/// time, and a map yields its keys in a fixed order.
#[verifier::external_body]
pub(crate) fn member_names(doc: &[u8]) -> (r: Option<Vec<String>>)
    ensures
        match r {
            Some(names) => json_member_names(doc@) == Some(text_views(names@)),
            None => json_member_names(doc@) is None,
        },
{
    let value = serde_json::from_slice::<Value>(doc).ok()?;
    Some(value.as_object()?.keys().cloned().collect())
}

/// Parses with `serde_json::from_slice`, looks the member up with
/// `Value::get` and reads it with `Value::as_str`.
#[verifier::external_body]
pub(crate) fn text_member(doc: &[u8], name: &str) -> (r: Option<String>)
    ensures
        match r {
            Some(text) => json_text(doc@, name@) == Some(text@),
            None => json_text(doc@, name@) is None,
        },
{
    let value = serde_json::from_slice::<Value>(doc).ok()?;
    value.get(name)?.as_str().map(str::to_owned)
}

/// Parses with `serde_json::from_slice`, looks the member up with
/// `Value::get` and reads it with `Value::as_i64`.
#[verifier::external_body]
pub(crate) fn integer_member(doc: &[u8], name: &str) -> (r: Option<i64>)
    ensures
        r == json_integer(doc@, name@),
{
    let value = serde_json::from_slice::<Value>(doc).ok()?;
    value.get(name)?.as_i64()
}

/// Parses with `serde_json::from_slice`, looks the member up with
/// `Value::get` and reads it with `Value::as_bool`.
#[verifier::external_body]
pub(crate) fn flag_member(doc: &[u8], name: &str) -> (r: Option<bool>)
    ensures
        r == json_flag(doc@, name@),
{
    let value = serde_json::from_slice::<Value>(doc).ok()?;
    value.get(name)?.as_bool()
}

/// Parses with `serde_json::from_slice`, looks the member up with
/// `Value::get`, takes it as an array with `Value::as_array` and reads each
/// element with `Value::as_str`.
#[verifier::external_body]
pub(crate) fn text_list_member(doc: &[u8], name: &str) -> (r: Option<Vec<String>>)
    ensures
        match r {
            Some(list) => json_text_list(doc@, name@) == Some(text_views(list@)),
            None => json_text_list(doc@, name@) is None,
        },
{
    let value = serde_json::from_slice::<Value>(doc).ok()?;
    value.get(name)?.as_array()?.iter().map(|v| v.as_str().map(str::to_owned)).collect()
}

/// Parses with `serde_json::from_slice`, looks the member up with
/// `Value::get`, takes it as an object with `Value::as_object` and writes it
/// out again with `serde_json::to_vec`.
#[verifier::external_body]
pub(crate) fn object_member(doc: &[u8], name: &str) -> (r: Option<Vec<u8>>)
    ensures
        match r {
            Some(inner) => json_object(doc@, name@) == Some(inner@),
            None => json_object(doc@, name@) is None,
        },
{
    let value = serde_json::from_slice::<Value>(doc).ok()?;
    serde_json::to_vec(value.get(name)?.as_object()?).ok()
}

/// Parses with `serde_json::from_slice`, looks the member up with
/// `Value::get`, takes it as an array with `Value::as_array` and writes each
/// element out again with `serde_json::to_vec`.
#[verifier::external_body]
pub(crate) fn list_member(doc: &[u8], name: &str) -> (r: Option<Vec<Vec<u8>>>)
    ensures
        match r {
            Some(list) => json_list(doc@, name@) == Some(byte_views(list@)),
            None => json_list(doc@, name@) is None,
        },
{
    let value = serde_json::from_slice::<Value>(doc).ok()?;
    value.get(name)?.as_array()?.iter().map(|v| serde_json::to_vec(v).ok()).collect()
}

} // verus!
