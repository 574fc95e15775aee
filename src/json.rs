//! Members of a JSON object, read through serde_json.
use vstd::prelude::*;

verus! {

/// The string member `key` of the JSON object in `body`, if `body` is one and has it.
pub uninterp spec fn json_str_member(body: Seq<char>, key: Seq<char>) -> Option<Seq<char>>;

/// The integer member `key` of the JSON object in `body`, if it is one that fits in an `i64`.
pub uninterp spec fn json_i64_member(body: Seq<char>, key: Seq<char>) -> Option<i64>;

/// The integer member `key` of the JSON object in `body`, if it is one that fits in a `u64`.
pub uninterp spec fn json_u64_member(body: Seq<char>, key: Seq<char>) -> Option<u64>;

/// The member `key` of the JSON object in `body`, if it is an array of strings.
pub uninterp spec fn json_str_list_member(body: Seq<char>, key: Seq<char>) -> Option<
    Seq<Seq<char>>,
>;

pub open spec fn opt_str_view(o: Option<String>) -> Option<Seq<char>> {
    match o {
        Some(s) => Some(s@),
        None => None,
    }
}

pub open spec fn opt_list_view(o: Option<Vec<String>>) -> Option<Seq<Seq<char>>> {
    match o {
        Some(v) => Some(v@.map_values(|s: String| s@)),
        None => None,
    }
}

/// Relies on serde_json::from_str into a Value, Value::get and Value::as_str:
/// the string member `key` of the object that `body` holds.
#[verifier::external_body]
pub(crate) fn str_member(body: &str, key: &str) -> (r: Option<String>)
    ensures
        opt_str_view(r) == json_str_member(body@, key@),
{
    let v: serde_json::Value = serde_json::from_str(body).ok()?;
    v.get(key)?.as_str().map(|s| s.to_owned())
}

/// Relies on serde_json::from_str into a Value, Value::get and Value::as_i64:
/// the integer member `key` of the object that `body` holds.
#[verifier::external_body]
pub(crate) fn i64_member(body: &str, key: &str) -> (r: Option<i64>)
    ensures
        r == json_i64_member(body@, key@),
{
    let v: serde_json::Value = serde_json::from_str(body).ok()?;
    v.get(key)?.as_i64()
}

/// Relies on serde_json::from_str into a Value, Value::get and Value::as_u64:
/// the unsigned integer member `key` of the object that `body` holds.
#[verifier::external_body]
pub(crate) fn u64_member(body: &str, key: &str) -> (r: Option<u64>)
    ensures
        r == json_u64_member(body@, key@),
{
    let v: serde_json::Value = serde_json::from_str(body).ok()?;
    v.get(key)?.as_u64()
}

/// Relies on serde_json::from_str into a Vec<String> of the member `key`
/// (through Value::get and serde_json::from_value): an array of strings, in order.
#[verifier::external_body]
pub(crate) fn str_list_member(body: &str, key: &str) -> (r: Option<Vec<String>>)
    ensures
        opt_list_view(r) == json_str_list_member(body@, key@),
{
    let v: serde_json::Value = serde_json::from_str(body).ok()?;
    serde_json::from_value(v.get(key)?.clone()).ok()
}

} // verus!
