//! JSON documents, held and written by `serde_json`.
use serde_json::Value;
use vstd::prelude::*;

verus! {

/// What a JSON value is.
pub ghost enum Json {
    Null,
    Number(u64),
    Text(Seq<char>),
    List(Seq<Json>),
    Object(Map<Seq<char>, Json>),
}

/// A JSON value of `serde_json`.
#[verifier::external_type_specification]
#[verifier::external_body]
pub struct ExValue(serde_json::Value);

/// The members of a JSON object of `serde_json`.
#[verifier::external_type_specification]
#[verifier::external_body]
#[verifier::reject_recursive_types(K)]
#[verifier::reject_recursive_types(V)]
pub struct ExMap<K, V>(serde_json::Map<K, V>);

/// What a JSON value of `serde_json` holds.
pub uninterp spec fn json_of(value: Value) -> Json;

/// The compact JSON text that `serde_json` writes for a JSON value.
pub uninterp spec fn json_text(json: Json) -> Seq<char>;

/// What the members of a JSON object of `serde_json` are.
pub uninterp spec fn members_in(map: serde_json::Map<String, Value>) -> Map<Seq<char>, Json>;

/// `Value::Null`.
#[verifier::external_body]
pub(crate) fn null() -> (value: Value)
    ensures
        json_of(value) == Json::Null,
{
    Value::Null
}

/// `Value::from` on an integer: the number.
#[verifier::external_body]
pub(crate) fn number(n: u64) -> (value: Value)
    ensures
        json_of(value) == Json::Number(n),
{
    Value::from(n)
}

/// `Value::from` on a string: the string.
#[verifier::external_body]
pub(crate) fn text(s: &str) -> (value: Value)
    ensures
        json_of(value) == Json::Text(s@),
{
    Value::from(s)
}

/// `Value::from` on a vector of values: the array of these values, in order.
#[verifier::external_body]
pub(crate) fn list(items: Vec<Value>) -> (value: Value)
    ensures
        json_of(value) == Json::List(items@.map_values(|item: Value| json_of(item))),
{
    Value::from(items)
}

/// `Map::new`: no members.
#[verifier::external_body]
pub(crate) fn no_members() -> (map: serde_json::Map<String, Value>)
    ensures
        (members_in(map) == Map::<Seq<char>, Json>::empty()),
{
    serde_json::Map::new()
}

/// `Map::insert`: the name stands for the value, in place of what it stood for
/// before, if it did; no other member changes.
#[verifier::external_body]
pub(crate) fn insert(map: &mut serde_json::Map<String, Value>, name: &str, value: Value)
    ensures
        members_in(*final(map)) == members_in(*old(map)).insert(name@, json_of(value)),
{
    map.insert(name.to_owned(), value);
}

/// `Value::Object`: the object with these members.
#[verifier::external_body]
pub(crate) fn object(members: serde_json::Map<String, Value>) -> (value: Value)
    ensures
        json_of(value) == Json::Object(members_in(members)),
{
    Value::Object(members)
}

/// `Value::to_string`: the compact JSON text of a value, with the members of
/// an object in the order of their names.
#[verifier::external_body]
pub(crate) fn write(value: &Value) -> (res: String)
    ensures
        res@ == json_text(json_of(*value)),
{
    value.to_string()
}

} // verus!
