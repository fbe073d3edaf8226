//! The calls into `serde_json`, and what is taken on trust about them.

use vstd::prelude::*;

verus! {

/// `serde_json::Value`, a parsed JSON document or a part of one.
#[verifier::external_type_specification]
#[verifier::external_body]
pub struct ExValue(serde_json::Value);

/// `serde_json::Error`, the reason a text was refused as JSON.
#[verifier::external_type_specification]
#[verifier::external_body]
pub struct ExError(serde_json::Error);

/// A JSON value as a tree of plain values. A number stands for itself
/// only: nothing here reads one.
pub enum JsonTree {
    Null,
    Bool(bool),
    Number,
    Text(Seq<char>),
    Array(Seq<JsonTree>),
    Object(Map<Seq<char>, JsonTree>),
}

/// What a `serde_json::Value` holds.
pub uninterp spec fn json_tree(value: serde_json::Value) -> JsonTree;

/// What the document holds that `serde_json::from_str` reads from a text,
/// `None` where it refuses the text.
pub uninterp spec fn json_document(text: Seq<char>) -> Option<JsonTree>;

/// Calls `serde_json::from_str` for a `serde_json::Value`. The parser reads
/// nothing but the text, so the same text always gives the same outcome:
/// `Ok` with the document named by [`json_document`], or `Err` where that is
/// `None`.
#[verifier::external_body]
pub(crate) fn parse_document(text: &str) -> (parsed: Result<serde_json::Value, serde_json::Error>)
    ensures
        match parsed {
            Ok(value) => json_document(text@) == Some(json_tree(value)),
            Err(_) => json_document(text@) is None,
        },
{
    serde_json::from_str::<serde_json::Value>(text)
}

/// Calls `serde_json::Value::get` with a string key: the member of an object
/// under that key, `None` where the object has no such member or the value
/// is no object.
#[verifier::external_body]
pub(crate) fn member<'a>(value: &'a serde_json::Value, key: &str) -> (found: Option<
    &'a serde_json::Value,
>)
    ensures
        match json_tree(*value) {
            JsonTree::Object(members) => if members.contains_key(key@) {
                found matches Some(v) && json_tree(*v) == members[key@]
            } else {
                found is None
            },
            _ => found is None,
        },
{
    value.get(key)
}

/// `serde_json::Value::as_array` hands out the vector of an array, which
/// holds its elements in order, and `None` for every other value.
pub assume_specification<'a>[ serde_json::Value::as_array ](value: &'a serde_json::Value) -> (items:
    Option<&'a Vec<serde_json::Value>>)
    ensures
        match json_tree(*value) {
            JsonTree::Array(elements) => items matches Some(v) && v@.len() == elements.len()
                && forall|i: int| 0 <= i < v@.len() ==> json_tree(#[trigger] v@[i]) == elements[i],
            _ => items is None,
        },
;

/// `serde_json::Value::as_str` hands out the contents of a string and `None`
/// for every other value.
pub assume_specification<'a>[ serde_json::Value::as_str ](value: &'a serde_json::Value) -> (text:
    Option<&'a str>)
    ensures
        match json_tree(*value) {
            JsonTree::Text(characters) => text matches Some(s) && s@ == characters,
            _ => text is None,
        },
;

} // verus!
