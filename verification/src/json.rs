//! JSON documents, as `serde_json` keeps, reads and prints them.
//!
//! `serde_json::Value` is opaque to the proofs. What such a value holds is given the name
//! `json_tree`, and each function of `serde_json` that the library calls has one trusted
//! counterpart here, which says over that name what the function does.
use vstd::prelude::*;
use crate::text::opt_view;

verus! {

/// What a JSON value holds.
pub enum JsonTree {
    Null,
    Bool(bool),
    /// A number that is a whole number to `serde_json`.
    Int(int),
    /// Any other number, by the bits of its `f64`.
    Float(u64),
    Text(Seq<char>),
    Array(Seq<JsonTree>),
    Object(Map<Seq<char>, JsonTree>),
}

/// `serde_json::Value`, which holds a JSON document.
#[verifier::external_type_specification]
#[verifier::external_body]
pub struct ExValue(serde_json::Value);

/// What a `serde_json::Value` holds: the document as a tree.
pub uninterp spec fn json_tree(value: serde_json::Value) -> JsonTree;

/// The text that `serde_json` prints for a document. Object members are printed in the order
/// of their keys, so the text depends on what the document holds and on nothing else. This is
/// so without the features `preserve_order` and `arbitrary_precision` of `serde_json`, which the
/// library does not turn on.
pub uninterp spec fn json_text(tree: JsonTree) -> Seq<char>;

/// The document that `serde_json` reads from a byte string, if the bytes are one.
pub uninterp spec fn json_read(bytes: Seq<u8>) -> Option<JsonTree>;

/// The trees of a list of values.
pub open spec fn trees(values: Seq<serde_json::Value>) -> Seq<JsonTree> {
    values.map_values(|v: serde_json::Value| json_tree(v))
}

/// The member of an object under a key; nothing of any other document.
pub open spec fn member(tree: JsonTree, key: Seq<char>) -> Option<JsonTree> {
    match tree {
        JsonTree::Object(members) => if members.contains_key(key) {
            Some(members[key])
        } else {
            None
        },
        _ => None,
    }
}

/// The members of an object; none of any other document.
pub open spec fn members(tree: JsonTree) -> Map<Seq<char>, JsonTree> {
    match tree {
        JsonTree::Object(members) => members,
        _ => Map::empty(),
    }
}

/// A text or, where there is none, `null`.
pub open spec fn text_or_null(text: Option<Seq<char>>) -> JsonTree {
    match text {
        Some(t) => JsonTree::Text(t),
        None => JsonTree::Null,
    }
}

/// `serde_json::Value::Null` is the document `null`.
#[verifier::external_body]
pub(crate) fn json_null() -> (r: serde_json::Value)
    ensures
        json_tree(r) == JsonTree::Null,
{
    serde_json::Value::Null
}

/// `serde_json::Value::from` of a `bool` is that boolean.
#[verifier::external_body]
pub(crate) fn json_bool(b: bool) -> (r: serde_json::Value)
    ensures
        json_tree(r) == JsonTree::Bool(b),
{
    serde_json::Value::from(b)
}

/// `serde_json::Value::from` of a `u64` is that number.
#[verifier::external_body]
pub(crate) fn json_u64(n: u64) -> (r: serde_json::Value)
    ensures
        json_tree(r) == JsonTree::Int(n as int),
{
    serde_json::Value::from(n)
}

/// `serde_json::Value::from` of an `i64` is that number.
#[verifier::external_body]
pub(crate) fn json_i64(n: i64) -> (r: serde_json::Value)
    ensures
        json_tree(r) == JsonTree::Int(n as int),
{
    serde_json::Value::from(n)
}

/// `serde_json::Value::from` of a `&str` is that text.
#[verifier::external_body]
pub(crate) fn json_str(text: &str) -> (r: serde_json::Value)
    ensures
        json_tree(r) == JsonTree::Text(text@),
{
    serde_json::Value::from(text)
}

/// `serde_json::Value::Array` holds the given values in the given order.
#[verifier::external_body]
pub(crate) fn json_array(items: Vec<serde_json::Value>) -> (r: serde_json::Value)
    ensures
        json_tree(r) == JsonTree::Array(trees(items@)),
{
    serde_json::Value::Array(items)
}

/// `serde_json::Map::new`, as a document, is an object without members.
#[verifier::external_body]
pub(crate) fn json_object() -> (r: serde_json::Value)
    ensures
        json_tree(r) == JsonTree::Object(Map::empty()),
{
    serde_json::Value::Object(serde_json::Map::new())
}

/// Assigning to `value[key]` (`IndexMut` of `serde_json::Value` with a `&str`) sets that member
/// of an object, whether it was there or not, and keeps the others; `null` becomes an object
/// with this one member. On any other value it panics.
#[verifier::external_body]
pub(crate) fn json_set(value: &mut serde_json::Value, key: &str, item: serde_json::Value)
    requires
        json_tree(*old(value)) is Object || json_tree(*old(value)) is Null,
    ensures
        json_tree(*final(value)) == JsonTree::Object(
            members(json_tree(*old(value))).insert(key@, json_tree(item)),
        ),
{
    value[key] = item;
}

/// `serde_json::Value::get` with a `&str` finds the member of an object under that key, and
/// nothing in any other value.
#[verifier::external_body]
pub(crate) fn json_get<'a>(value: &'a serde_json::Value, key: &str) -> (r: Option<
    &'a serde_json::Value,
>)
    ensures
        match r {
            Some(item) => member(json_tree(*value), key@) == Some(json_tree(*item)),
            None => member(json_tree(*value), key@) is None,
        },
{
    value.get(key)
}

/// `serde_json::Value::as_u64` gives a whole number that is not negative, and nothing of any
/// other value.
#[verifier::external_body]
pub(crate) fn json_as_u64(value: &serde_json::Value) -> (r: Option<u64>)
    ensures
        match r {
            Some(n) => json_tree(*value) == JsonTree::Int(n as int),
            None => !(json_tree(*value) is Int && json_tree(*value)->Int_0 >= 0),
        },
{
    value.as_u64()
}

/// `serde_json::Value::as_str` gives the text of a string, and nothing of any other value.
#[verifier::external_body]
pub(crate) fn json_as_str<'a>(value: &'a serde_json::Value) -> (r: Option<&'a str>)
    ensures
        match r {
            Some(text) => json_tree(*value) == JsonTree::Text(text@),
            None => !(json_tree(*value) is Text),
        },
{
    value.as_str()
}

/// `serde_json::Value::as_array` gives the items of an array in order, and nothing of any other
/// value.
#[verifier::external_body]
pub(crate) fn json_as_array<'a>(value: &'a serde_json::Value) -> (r: Option<
    &'a Vec<serde_json::Value>,
>)
    ensures
        match r {
            Some(items) => json_tree(*value) == JsonTree::Array(trees(items@)),
            None => !(json_tree(*value) is Array),
        },
{
    value.as_array()
}

/// `serde_json::Value::is_object` tells an object from any other value.
#[verifier::external_body]
pub(crate) fn json_is_object(value: &serde_json::Value) -> (r: bool)
    ensures
        r == (json_tree(*value) is Object),
{
    value.is_object()
}

/// `to_string` of a `serde_json::Value` prints the document it holds. Control characters in
/// texts and keys are printed as escapes, so the text has no NUL in it.
#[verifier::external_body]
pub(crate) fn json_to_string(value: &serde_json::Value) -> (r: String)
    ensures
        r@ == json_text(json_tree(*value)),
        !r@.contains('\0'),
{
    value.to_string()
}

/// `serde_json::from_slice` reads a document, or fails if the bytes are none.
#[verifier::external_body]
pub(crate) fn json_from_slice(bytes: &[u8]) -> (r: Option<serde_json::Value>)
    ensures
        match r {
            Some(value) => json_read(bytes@) == Some(json_tree(value)),
            None => json_read(bytes@) is None,
        },
{
    serde_json::from_slice(bytes).ok()
}

/// A text or, where there is none, `null`.
pub(crate) fn json_opt_str(text: &Option<String>) -> (r: serde_json::Value)
    ensures
        json_tree(r) == text_or_null(opt_view(*text)),
{
    match text {
        Some(t) => json_str(t.as_str()),
        None => json_null(),
    }
}

} // verus!
