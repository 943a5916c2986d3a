//! JSON metadata.
use vstd::prelude::*;

verus! {

#[verifier::external_type_specification]
#[verifier::external_body]
pub struct ExJsonValue(serde_json::Value);

/// The members of a JSON object whose value is an integer that fits in 64 bits with a sign. A
/// JSON value that is no object has none.
pub uninterp spec fn integer_members(value: serde_json::Value) -> Map<Seq<char>, i64>;

/// The names of the members of a JSON object, of whatever kind their values are. A JSON value
/// that is no object has none.
pub uninterp spec fn member_names(value: serde_json::Value) -> Set<Seq<char>>;

/// `serde_json::Value::get` with a key, then `as_i64`: the integer that the member holds.
#[verifier::external_body]
pub(crate) fn integer_member(value: &serde_json::Value, key: &str) -> (r: Option<i64>)
    ensures
        r is Some <==> integer_members(*value).dom().contains(key@),
        r matches Some(n) ==> integer_members(*value)[key@] == n,
{
    value.get(key).and_then(|member| member.as_i64())
}

/// `serde_json::Map::insert` into a new map: a JSON object with one member, an integer.
#[verifier::external_body]
pub(crate) fn integer_object(key: &str, n: i64) -> (r: serde_json::Value)
    ensures
        integer_members(r) == map![key@ => n],
        member_names(r) == set![key@],
{
    let mut map = serde_json::Map::new();
    map.insert(key.to_owned(), serde_json::Value::from(n));
    serde_json::Value::Object(map)
}

} // verus!
