//! JSON documents, parsed by serde_json and read through a tree model.
use vstd::prelude::*;

verus! {

#[verifier::external_type_specification]
#[verifier::external_body]
pub struct ExJsonValue(serde_json::Value);

#[verifier::external_type_specification]
#[verifier::external_body]
pub struct ExJsonError(serde_json::Error);

/// What a JSON value holds, as a tree.
pub enum JsonTree {
    Null,
    Bool(bool),
    /// A number that serde_json holds as an integer.
    Int(int),
    /// A number that serde_json holds as a float.
    Float,
    Str(Seq<char>),
    Array(Seq<JsonTree>),
    Object(Map<Seq<char>, JsonTree>),
}

/// What a parsed `serde_json::Value` holds.
pub uninterp spec fn tree_of(v: serde_json::Value) -> JsonTree;

/// The tree that serde_json reads from a text, or `None` where the text is
/// not one well-formed JSON document.
pub uninterp spec fn parsed_tree(text: Seq<char>) -> Option<JsonTree>;

/// The member of an object under `key`, if the tree is an object that has it.
pub open spec fn member_of(t: JsonTree, key: Seq<char>) -> Option<JsonTree> {
    match t {
        JsonTree::Object(m) => if m.contains_key(key) {
            Some(m[key])
        } else {
            None
        },
        _ => None,
    }
}

/// Relies on serde_json::from_str into a `Value`: the parse depends on the text
/// alone, and fails exactly where the text is no JSON document.
#[verifier::external_body]
pub(crate) fn parse_document(text: &str) -> (r: Result<serde_json::Value, serde_json::Error>)
    ensures
        match r {
            Ok(v) => parsed_tree(text@) == Some(tree_of(v)),
            Err(_) => parsed_tree(text@) is None,
        },
{
    serde_json::from_str::<serde_json::Value>(text)
}

/// Relies on serde_json::Value::get with a string key: the member of an object
/// under that key, and `None` for a missing key or a value that is no object.
#[verifier::external_body]
pub(crate) fn member<'a>(v: &'a serde_json::Value, key: &str) -> (r: Option<&'a serde_json::Value>)
    ensures
        match member_of(tree_of(*v), key@) {
            Some(t) => r is Some && tree_of(*r->0) == t,
            None => r is None,
        },
{
    v.get(key)
}

/// Relies on serde_json::Value::as_str: the text of a string value, `None`
/// for any other value.
#[verifier::external_body]
pub(crate) fn as_text(v: &serde_json::Value) -> (r: Option<&str>)
    ensures
        match tree_of(*v) {
            JsonTree::Str(s) => r is Some && r->0@ == s,
            _ => r is None,
        },
{
    v.as_str()
}

/// Relies on serde_json::Value::as_i64: an integer that fits in `i64`, `None`
/// for any other value.
#[verifier::external_body]
pub(crate) fn as_integer(v: &serde_json::Value) -> (r: Option<i64>)
    ensures
        match tree_of(*v) {
            JsonTree::Int(i) => if i64::MIN <= i <= i64::MAX {
                r == Some(i as i64)
            } else {
                r is None
            },
            _ => r is None,
        },
{
    v.as_i64()
}

/// Relies on serde_json::Value::as_array: the elements of an array, in order,
/// `None` for any other value.
#[verifier::external_body]
pub(crate) fn as_elements(v: &serde_json::Value) -> (r: Option<&Vec<serde_json::Value>>)
    ensures
        match tree_of(*v) {
            JsonTree::Array(s) => r is Some && r->0@.len() == s.len() && (forall|i: int|
                0 <= i < s.len() ==> tree_of(#[trigger] r->0@[i]) == s[i]),
            _ => r is None,
        },
{
    v.as_array()
}

} // verus!
