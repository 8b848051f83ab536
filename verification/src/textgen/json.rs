//! JSON values as the backend's wire format needs them.
//!
//! The values are `serde_json::Value`s, which are opaque to the verifier. What
//! a value holds is named by [`json_tree`]; every item below that touches a
//! value is trusted to do to that tree what its contract says, and nothing in
//! this module is proved.

use vstd::prelude::*;

verus! {

/// A JSON number. An integer is known by its value. Of a number with a
/// fraction or an exponent only its binary64 bit pattern is known.
pub enum JsonNumber {
    Integer(int),
    Binary64(nat),
}

/// What a JSON value holds. An object is a map from key to member: a key
/// stands once, and the members have no order.
pub enum JsonTree {
    Null,
    Bool(bool),
    Number(JsonNumber),
    Text(Seq<char>),
    Array(Seq<JsonTree>),
    Object(Map<Seq<char>, JsonTree>),
}

/// `serde_json::Value`, carried through verified code as an opaque value.
#[verifier::external_type_specification]
#[verifier::external_body]
pub struct ExJsonValue(serde_json::Value);

/// `serde_json::Error`, carried through verified code as an opaque value.
#[verifier::external_type_specification]
#[verifier::external_body]
pub struct ExJsonError(serde_json::Error);

/// What the value holds.
pub uninterp spec fn json_tree(value: serde_json::Value) -> JsonTree;

/// What `serde_json::from_str` reads from a text: the tree of the value that
/// the text denotes, or `None` where the text is no JSON document.
pub uninterp spec fn json_parsed(text: Seq<char>) -> Option<JsonTree>;

/// The text that `Value::to_string` writes for a value with this tree: the
/// compact rendering.
pub uninterp spec fn json_text(tree: JsonTree) -> Seq<char>;

/// The trees of a sequence of values, in the same order.
pub open spec fn json_trees(values: Seq<serde_json::Value>) -> Seq<JsonTree> {
    values.map_values(|v: serde_json::Value| json_tree(v))
}

/// The member of an object under `key`; `None` where the tree is no object or
/// has no such member.
pub open spec fn member_of(tree: JsonTree, key: Seq<char>) -> Option<JsonTree> {
    match tree {
        JsonTree::Object(fields) => if fields.contains_key(key) {
            Some(fields[key])
        } else {
            None
        },
        _ => None,
    }
}

/// The element of an array at `index`; `None` where the tree is no array or
/// is shorter.
pub open spec fn element_of(tree: JsonTree, index: int) -> Option<JsonTree> {
    match tree {
        JsonTree::Array(items) => if 0 <= index < items.len() {
            Some(items[index])
        } else {
            None
        },
        _ => None,
    }
}

/// The text of a string; `None` where the tree is no string.
pub open spec fn text_of(tree: JsonTree) -> Option<Seq<char>> {
    match tree {
        JsonTree::Text(text) => Some(text),
        _ => None,
    }
}

/// Calls `serde_json::from_str::<Value>`. Trusted: it returns `Ok` exactly on
/// the texts that `json_parsed` reads, with a value of the tree read.
#[verifier::external_body]
pub(crate) fn parse(text: &str) -> (parsed: Result<serde_json::Value, serde_json::Error>)
    ensures
        match parsed {
            Ok(value) => json_parsed(text@) == Some(json_tree(value)),
            Err(_) => json_parsed(text@) is None,
        },
{
    serde_json::from_str::<serde_json::Value>(text)
}

/// Calls `Value::get` with a key. Trusted: it returns the member under `key`
/// where the value is an object that has one, and `None` otherwise.
#[verifier::external_body]
pub(crate) fn member<'a>(value: &'a serde_json::Value, key: &str) -> (found: Option<
    &'a serde_json::Value,
>)
    ensures
        match found {
            Some(m) => member_of(json_tree(*value), key@) == Some(json_tree(*m)),
            None => member_of(json_tree(*value), key@) is None,
        },
{
    value.get(key)
}

/// Calls `Value::get` with an index. Trusted: it returns the element at
/// `index` where the value is an array that long, and `None` otherwise.
#[verifier::external_body]
pub(crate) fn element<'a>(value: &'a serde_json::Value, index: usize) -> (found: Option<
    &'a serde_json::Value,
>)
    ensures
        match found {
            Some(e) => element_of(json_tree(*value), index as int) == Some(json_tree(*e)),
            None => element_of(json_tree(*value), index as int) is None,
        },
{
    value.get(index)
}

/// Calls `Value::as_str`. Trusted: it returns the text where the value is a
/// string, and `None` otherwise.
#[verifier::external_body]
pub(crate) fn as_text<'a>(value: &'a serde_json::Value) -> (text: Option<&'a str>)
    ensures
        match text {
            Some(t) => text_of(json_tree(*value)) == Some(t@),
            None => text_of(json_tree(*value)) is None,
        },
{
    value.as_str()
}

/// Calls `Value::from` on a string slice. Trusted: the value is that string.
#[verifier::external_body]
pub(crate) fn text_value(text: &str) -> (value: serde_json::Value)
    ensures
        json_tree(value) == JsonTree::Text(text@),
{
    serde_json::Value::from(text)
}

/// Calls `Value::from` on an `i64`. Trusted: the value is that integer.
#[verifier::external_body]
pub(crate) fn integer_value(number: i64) -> (value: serde_json::Value)
    ensures
        json_tree(value) == JsonTree::Number(JsonNumber::Integer(number as int)),
{
    serde_json::Value::from(number)
}

/// Calls `Value::from` on a `bool`. Trusted: the value is that boolean.
#[verifier::external_body]
pub(crate) fn bool_value(flag: bool) -> (value: serde_json::Value)
    ensures
        json_tree(value) == JsonTree::Bool(flag),
{
    serde_json::Value::from(flag)
}

/// Builds `Value::Array`. Trusted: the value is the array of the items, in
/// their order.
#[verifier::external_body]
pub(crate) fn array_value(items: Vec<serde_json::Value>) -> (value: serde_json::Value)
    ensures
        json_tree(value) == JsonTree::Array(json_trees(items@)),
{
    serde_json::Value::Array(items)
}

/// Builds `Value::Object` from `serde_json::Map::new`. Trusted: the value is
/// the object without members.
#[verifier::external_body]
pub(crate) fn empty_object() -> (value: serde_json::Value)
    ensures
        json_tree(value) == JsonTree::Object(Map::<Seq<char>, JsonTree>::empty()),
{
    serde_json::Value::Object(serde_json::Map::new())
}

/// Calls `serde_json::Map::insert` on the members of an object. Trusted: the
/// object then has `member` under `key`, in place of what it had there, and
/// its other members as before.
#[verifier::external_body]
pub(crate) fn set_member(object: &mut serde_json::Value, key: &str, member: serde_json::Value)
    requires
        json_tree(*old(object)) is Object,
    ensures
        json_tree(*final(object)) == JsonTree::Object(
            json_tree(*old(object))->Object_0.insert(key@, json_tree(member)),
        ),
{
    if let serde_json::Value::Object(fields) = object {
        fields.insert(key.to_string(), member);
    }
}

/// Calls `Value::clone`. Trusted: the copy holds what the value holds.
#[verifier::external_body]
pub(crate) fn copy_value(value: &serde_json::Value) -> (copy: serde_json::Value)
    ensures
        json_tree(copy) == json_tree(*value),
{
    value.clone()
}

/// Calls `Value::to_string`. Trusted: the text is the compact rendering of
/// what the value holds.
#[verifier::external_body]
pub(crate) fn render(value: &serde_json::Value) -> (text: String)
    ensures
        text@ == json_text(json_tree(*value)),
{
    value.to_string()
}

} // verus!
