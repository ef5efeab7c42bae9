//! JSON values as the envelope carries them, with a mathematical model of
//! what a value holds.

use vstd::prelude::*;
use serde_json::Value;

verus! {

#[verifier::external_type_specification]
#[verifier::external_body]
pub struct ExJsonValue(serde_json::Value);

#[verifier::external_type_specification]
#[verifier::external_body]
#[verifier::reject_recursive_types(K)]
#[verifier::reject_recursive_types(V)]
pub struct ExJsonMap<K, V>(serde_json::Map<K, V>);

/// What a JSON value holds.
pub enum JsonModel {
    Null,
    Number(int),
    Text(Seq<char>),
    List(Seq<JsonModel>),
    Object(Map<Seq<char>, JsonModel>),
}

/// What a `serde_json::Value` holds.
pub uninterp spec fn json_model(v: serde_json::Value) -> JsonModel;

/// The members that a `serde_json::Map` holds, each under its key.
pub uninterp spec fn object_members(m: serde_json::Map<String, Value>) -> Map<
    Seq<char>,
    JsonModel,
>;

/// The compact JSON text of a list of strings.
pub uninterp spec fn compact_text(items: Seq<Seq<char>>) -> Seq<char>;

/// The indented JSON text of a list of values.
pub uninterp spec fn pretty_text(items: Seq<JsonModel>) -> Seq<char>;

/// The models of a list of values.
pub open spec fn models(items: Seq<Value>) -> Seq<JsonModel> {
    items.map_values(|v: Value| json_model(v))
}

/// `Value::Null`.
#[verifier::external_body]
pub(crate) fn json_null() -> (v: Value)
    ensures
        json_model(v) == JsonModel::Null,
{
    Value::Null
}

/// `Value::from(u64)`: the value is that number.
#[verifier::external_body]
pub(crate) fn json_unsigned(n: u64) -> (v: Value)
    ensures
        json_model(v) == JsonModel::Number(n as int),
{
    Value::from(n)
}

/// `Value::from(i64)`: the value is that number.
#[verifier::external_body]
pub(crate) fn json_signed(n: i64) -> (v: Value)
    ensures
        json_model(v) == JsonModel::Number(n as int),
{
    Value::from(n)
}

/// `Value::from(&str)`: the value is a string with the same characters.
#[verifier::external_body]
pub(crate) fn json_text(s: &str) -> (v: Value)
    ensures
        json_model(v) == JsonModel::Text(s@),
{
    Value::from(s)
}

/// `Value::Array`: the value is the list of the given values, in order.
#[verifier::external_body]
pub(crate) fn json_list(items: Vec<Value>) -> (v: Value)
    ensures
        json_model(v) == JsonModel::List(models(items@)),
{
    Value::Array(items)
}

/// No members.
pub open spec fn no_members() -> Map<Seq<char>, JsonModel> {
    Map::empty()
}

/// `serde_json::Map::new`: a map without members.
#[verifier::external_body]
pub(crate) fn json_map() -> (m: serde_json::Map<String, Value>)
    ensures
        object_members(m) == no_members(),
{
    serde_json::Map::new()
}

/// `serde_json::Map::insert`: the map holds the value under the key, in
/// place of what it held under that key before; the other members stay.
#[verifier::external_body]
pub(crate) fn json_insert(m: &mut serde_json::Map<String, Value>, key: &str, value: Value)
    ensures
        object_members(*final(m)) == object_members(*old(m)).insert(key@, json_model(value)),
{
    m.insert(key.to_owned(), value);
}

/// `Value::Object`: the value is the object with the members of the map.
#[verifier::external_body]
pub(crate) fn json_object(m: serde_json::Map<String, Value>) -> (v: Value)
    ensures
        json_model(v) == JsonModel::Object(object_members(m)),
{
    Value::Object(m)
}

/// `serde_json::to_string` on a list of strings. It cannot fail on strings;
/// the result is the compact JSON text of the list.
#[verifier::external_body]
pub(crate) fn to_compact_text(items: &Vec<String>) -> (text: String)
    ensures
        text@ == compact_text(crate::text::texts(items@)),
{
    serde_json::to_string(items).unwrap_or_default()
}

/// `serde_json::to_string_pretty` on a list of values. It cannot fail on
/// values; the result is the indented JSON text of the list.
#[verifier::external_body]
pub(crate) fn to_pretty_text(items: &Vec<Value>) -> (text: String)
    ensures
        text@ == pretty_text(models(items@)),
{
    serde_json::to_string_pretty(items).unwrap_or_default()
}

/// The object with the one member `key: value`.
pub open spec fn object1(key: Seq<char>, value: JsonModel) -> JsonModel {
    JsonModel::Object(Map::empty().insert(key, value))
}

/// An object with one member.
pub fn json_object1(key: &str, value: Value) -> (v: Value)
    ensures
        json_model(v) == object1(key@, json_model(value)),
{
    let mut m = json_map();
    json_insert(&mut m, key, value);
    json_object(m)
}

/// A list of strings as a JSON list.
pub fn json_text_list(items: &Vec<String>) -> (v: Value)
    ensures
        json_model(v) == JsonModel::List(
            crate::text::texts(items@).map_values(|s: Seq<char>| JsonModel::Text(s)),
        ),
{
    let mut out: Vec<Value> = Vec::new();
    let mut i: usize = 0;
    while i < items.len()
        invariant
            i <= items.len(),
            out.len() == i,
            forall|j: int|
                0 <= j < i ==> json_model(#[trigger] out@[j]) == JsonModel::Text(items@[j]@),
        decreases items.len() - i,
    {
        out.push(json_text(items[i].as_str()));
        i = i + 1;
    }
    assert(models(out@) =~= crate::text::texts(items@).map_values(
        |s: Seq<char>| JsonModel::Text(s),
    ));
    json_list(out)
}

/// The object with the two members `k1: v1` and `k2: v2`; with one key
/// twice it holds `v2` alone.
pub open spec fn object2(k1: Seq<char>, v1: JsonModel, k2: Seq<char>, v2: JsonModel) -> JsonModel {
    JsonModel::Object(Map::empty().insert(k1, v1).insert(k2, v2))
}

/// An object with two members.
pub fn json_object2(k1: &str, v1: Value, k2: &str, v2: Value) -> (v: Value)
    ensures
        json_model(v) == object2(k1@, json_model(v1), k2@, json_model(v2)),
{
    let mut m = json_map();
    json_insert(&mut m, k1, v1);
    json_insert(&mut m, k2, v2);
    json_object(m)
}

} // verus!
