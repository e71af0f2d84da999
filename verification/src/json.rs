//! JSON values of `serde_json`, seen as a mathematical tree.
use vstd::prelude::*;

verus! {

/// What a JSON value holds. Null, booleans and numbers are not told apart: nothing here reads
/// them.
pub enum Json {
    Scalar,
    Text(Seq<char>),
    List(Seq<Json>),
    Object(Map<Seq<char>, Json>),
}

/// `serde_json::Value`, known by the tree it holds.
#[verifier::external_type_specification]
#[verifier::external_body]
pub struct ExJsonValue(serde_json::Value);

/// `serde_json::Map`, known by the members it holds.
#[verifier::external_type_specification]
#[verifier::external_body]
#[verifier::reject_recursive_types(K)]
#[verifier::reject_recursive_types(V)]
pub struct ExJsonMap<K, V>(serde_json::Map<K, V>);

/// The tree that a `serde_json::Value` holds.
pub uninterp spec fn json_tree(v: serde_json::Value) -> Json;

/// The members that a `serde_json::Map` holds, each value as its tree.
pub uninterp spec fn json_members(m: serde_json::Map<String, serde_json::Value>) -> Map<
    Seq<char>,
    Json,
>;

/// `serde_json::Value::as_str`: the text of a JSON string, and nothing for any other value.
pub assume_specification[ serde_json::Value::as_str ](v: &serde_json::Value) -> (r: Option<&str>)
    ensures
        r.deep_view() == as_text(json_tree(*v)),
;

/// `serde_json::Map::new`: a map without members.
pub assume_specification[ serde_json::Map::<String, serde_json::Value>::new ]() -> (r: serde_json::Map<String, serde_json::Value>)
    ensures
        json_members(r) == no_members(),
;

/// `serde_json::Map::insert`: afterwards the key has the given value, whatever it had before,
/// and every other member is as it was.
/// The value that the key had before is handed back.
pub assume_specification[ serde_json::Map::<String, serde_json::Value>::insert ](
    m: &mut serde_json::Map<String, serde_json::Value>,
    k: String,
    v: serde_json::Value,
) -> (r: Option<serde_json::Value>)
    ensures
        json_members(*final(m)) == json_members(*old(m)).insert(k@, json_tree(v)),
        r is Some <==> json_members(*old(m)).contains_key(k@),
        r matches Some(before) ==> json_tree(before) == json_members(*old(m))[k@],
;

/// `serde_json::Value::get` with a string key: the member of a JSON object under that key.
/// There is none where the object lacks the key, nor in any value that is not an object.
#[verifier::external_body]
pub(crate) fn get_member<'a>(v: &'a serde_json::Value, key: &str) -> (r: Option<&'a serde_json::Value>)
    ensures
        r is Some <==> member(json_tree(*v), key@) is Some,
        r matches Some(m) ==> member(json_tree(*v), key@) == Some(json_tree(*m)),
{
    v.get(key)
}

/// The variant `serde_json::Value::String`, holding the given text.
#[verifier::external_body]
pub(crate) fn text_value(s: String) -> (r: serde_json::Value)
    ensures
        json_tree(r) == Json::Text(s@),
{
    serde_json::Value::String(s)
}

/// The variant `serde_json::Value::Array`, holding the given items in their order.
#[verifier::external_body]
pub(crate) fn list_value(items: Vec<serde_json::Value>) -> (r: serde_json::Value)
    ensures
        json_tree(r) == Json::List(items@.map_values(|v: serde_json::Value| json_tree(v))),
{
    serde_json::Value::Array(items)
}

/// The variant `serde_json::Value::Object`, holding the given members.
#[verifier::external_body]
pub(crate) fn object_value(members: serde_json::Map<String, serde_json::Value>) -> (r:
    serde_json::Value)
    ensures
        json_tree(r) == Json::Object(json_members(members)),
{
    serde_json::Value::Object(members)
}

/// No members at all.
pub open spec fn no_members() -> Map<Seq<char>, Json> {
    Map::empty()
}

/// The text of a JSON string; nothing for any other tree.
pub open spec fn as_text(tree: Json) -> Option<Seq<char>> {
    match tree {
        Json::Text(s) => Some(s),
        _ => None,
    }
}

/// The member of a JSON object under `key`; nothing where there is none.
pub open spec fn member(tree: Json, key: Seq<char>) -> Option<Json> {
    match tree {
        Json::Object(members) => if members.contains_key(key) {
            Some(members[key])
        } else {
            None
        },
        _ => None,
    }
}

/// The text of the member under `key`, where that member is a JSON string.
pub open spec fn text_member(tree: Json, key: Seq<char>) -> Option<Seq<char>> {
    match member(tree, key) {
        Some(m) => as_text(m),
        None => None,
    }
}

/// The text that a JSON object holds under `key`.
/// There is none where the value is no object, lacks the key, or holds something other than a
/// string under it.
pub fn get_text(v: &serde_json::Value, key: &str) -> (r: Option<String>)
    ensures
        r.deep_view() == text_member(json_tree(*v), key@),
{
    match get_member(v, key) {
        Some(m) => match m.as_str() {
            Some(s) => Some(s.to_owned()),
            None => None,
        },
        None => None,
    }
}

} // verus!
