//! JSON values, built and written with `serde_json`.
use vstd::prelude::*;

use crate::numbers::decimal;

verus! {

/// What a JSON value holds. A number is kept by the text that JSON gives it.
pub enum JsonView {
    Null,
    Bool(bool),
    Number(Seq<char>),
    Text(Seq<char>),
    Array(Seq<JsonView>),
    Object(Map<Seq<char>, JsonView>),
}

/// `serde_json::Value`, opaque to proofs.
#[verifier::external_type_specification]
#[verifier::external_body]
pub struct ExJsonValue(serde_json::Value);

/// `serde_json::Map`, opaque to proofs.
#[verifier::external_type_specification]
#[verifier::external_body]
#[verifier::reject_recursive_types(K)]
#[verifier::reject_recursive_types(V)]
pub struct ExJsonMap<K, V>(serde_json::Map<K, V>);

/// What a `serde_json::Value` holds.
pub uninterp spec fn json_value(v: serde_json::Value) -> JsonView;

/// What a `serde_json::Map` holds under each key.
pub uninterp spec fn json_members(m: serde_json::Map<String, serde_json::Value>) -> Map<
    Seq<char>,
    JsonView,
>;

/// The bytes as which `serde_json::to_vec` writes a value.
pub uninterp spec fn json_bytes(v: JsonView) -> Seq<u8>;

/// `serde_json::Value::Null` holds null.
#[verifier::external_body]
pub(crate) fn json_null() -> (r: serde_json::Value)
    ensures
        json_value(r) == JsonView::Null,
{
    serde_json::Value::Null
}

/// `serde_json::Value::from` of a 64-bit unsigned integer holds that number.
#[verifier::external_body]
pub(crate) fn json_number(n: u64) -> (r: serde_json::Value)
    ensures
        json_value(r) == JsonView::Number(decimal(n as nat)),
{
    serde_json::Value::from(n)
}

/// `serde_json::Value::String` holds the text it is given.
#[verifier::external_body]
pub(crate) fn json_text(s: String) -> (r: serde_json::Value)
    ensures
        json_value(r) == JsonView::Text(s@),
{
    serde_json::Value::String(s)
}

/// What a list of values holds.
pub open spec fn json_values(list: Seq<serde_json::Value>) -> Seq<JsonView> {
    list.map_values(|v: serde_json::Value| json_value(v))
}

/// `serde_json::Value::Array` holds the values it is given, in their order.
#[verifier::external_body]
pub(crate) fn json_array(list: Vec<serde_json::Value>) -> (r: serde_json::Value)
    ensures
        json_value(r) == JsonView::Array(json_values(list@)),
{
    serde_json::Value::Array(list)
}

/// The members of an object that has none.
pub open spec fn no_members() -> Map<Seq<char>, JsonView> {
    Map::empty()
}

/// `serde_json::Map::new` makes a map that holds nothing.
#[verifier::external_body]
pub(crate) fn json_map() -> (r: serde_json::Map<String, serde_json::Value>)
    ensures
        json_members(r) == no_members(),
{
    serde_json::Map::new()
}

/// `serde_json::Map::insert` puts a value under a key, in place of what was there, and keeps the
/// rest.
#[verifier::external_body]
pub(crate) fn json_insert(
    map: &mut serde_json::Map<String, serde_json::Value>,
    key: &str,
    value: serde_json::Value,
)
    ensures
        json_members(*final(map)) == json_members(*old(map)).insert(key@, json_value(value)),
{
    map.insert(key.to_owned(), value);
}

/// `serde_json::Value::Object` holds the members of the map it is given.
#[verifier::external_body]
pub(crate) fn json_object(map: serde_json::Map<String, serde_json::Value>) -> (r: serde_json::Value)
    ensures
        json_value(r) == JsonView::Object(json_members(map)),
{
    serde_json::Value::Object(map)
}

/// The attempt to write a value succeeded, with these bytes.
pub open spec fn is_written(r: Result<Vec<u8>, String>, bytes: Seq<u8>) -> bool {
    r matches Ok(b) && b@ == bytes
}

/// `serde_json::to_vec` writes a value as compact JSON. A value can always be written: its objects
/// have texts for keys, a number is written whatever it is, and a vector takes every byte. The bytes
/// depend on what the value holds and on nothing else: object members are kept, and so written, in
/// the order of their keys.
#[verifier::external_body]
pub(crate) fn json_to_vec(value: &serde_json::Value) -> (r: Result<Vec<u8>, String>)
    ensures
        is_written(r, json_bytes(json_value(*value))),
{
    serde_json::to_vec(value).map_err(|e| e.to_string())
}

/// An optional text in JSON: the text, or null.
pub open spec fn json_opt(s: Option<String>) -> JsonView {
    match s {
        Some(t) => JsonView::Text(t@),
        None => JsonView::Null,
    }
}

/// The JSON of an optional text.
pub fn json_opt_text(s: &Option<String>) -> (r: serde_json::Value)
    ensures
        json_value(r) == json_opt(*s),
{
    match s {
        Some(t) => json_text(t.clone()),
        None => json_null(),
    }
}

/// The empty JSON object.
pub fn json_empty_object() -> (r: serde_json::Value)
    ensures
        json_value(r) == JsonView::Object(no_members()),
{
    json_object(json_map())
}

} // verus!
