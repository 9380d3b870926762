//! The boundary to `serde_yaml`.
//!
//! Jobs, command lists and results travel as YAML text. Reading and writing
//! that text is `serde_yaml`'s work; this module declares the part of its
//! API that the codec calls and states, without proof, what each call
//! returns. Everything here is believed, not verified: each contract says
//! no more than the called function's source shows.
//!
//! A `serde_yaml::Value` is opaque to the verifier. What the codec can learn
//! of one is what the accessors below return, and each accessor's result has
//! a name, so that contracts elsewhere can say which value was decoded.

use vstd::prelude::*;

verus! {

/// A YAML document or a node of one.
#[verifier::external_type_specification]
#[verifier::external_body]
pub struct ExValue(serde_yaml::Value);

/// A YAML mapping: an insertion-ordered map from nodes to nodes.
#[verifier::external_type_specification]
#[verifier::external_body]
pub struct ExMapping(serde_yaml::Mapping);

/// Why `serde_yaml` could not read or write a document.
#[verifier::external_type_specification]
#[verifier::external_body]
pub struct ExError(serde_yaml::Error);

/// The text that `Value::as_str` finds in a node: `Some` for a string node,
/// with or without a tag, `None` for any other.
pub uninterp spec fn value_text(v: serde_yaml::Value) -> Option<Seq<char>>;

/// The number that `Value::as_u64` finds in a node: `Some` for a number node
/// that holds a non-negative integer within `u64`, with or without a tag,
/// `None` for any other.
pub uninterp spec fn value_u64(v: serde_yaml::Value) -> Option<u64>;

/// The truth value that `Value::as_bool` finds in a node: `Some` for a
/// boolean node, with or without a tag, `None` for any other.
pub uninterp spec fn value_bool(v: serde_yaml::Value) -> Option<bool>;

/// The items that `Value::as_sequence` finds in a node, in order: `Some` for
/// a sequence node, with or without a tag, `None` for any other.
pub uninterp spec fn value_items(v: serde_yaml::Value) -> Option<Seq<serde_yaml::Value>>;

/// What `Value::get` finds in a node under each text key: `Some` for a
/// mapping node, with or without a tag, holding its entries whose key is a
/// string node; `None` for any other node.
pub uninterp spec fn value_fields(v: serde_yaml::Value) -> Option<
    Map<Seq<char>, serde_yaml::Value>,
>;

/// The entries of a mapping whose key is a string node, by that string.
pub uninterp spec fn mapping_fields(m: serde_yaml::Mapping) -> Map<Seq<char>, serde_yaml::Value>;

/// The document that `serde_yaml::from_str` reads from a text, or `None`
/// where it reports an error.
pub uninterp spec fn parsed(text: Seq<char>) -> Option<serde_yaml::Value>;

/// The text that `serde_yaml::to_string` writes for a document, or `None`
/// where it reports an error.
pub uninterp spec fn rendered(v: serde_yaml::Value) -> Option<Seq<char>>;

/// A mapping without entries.
pub open spec fn no_fields() -> Map<Seq<char>, serde_yaml::Value> {
    Map::empty()
}

/// `Value::as_str`: the node's text, if it is a string node.
pub assume_specification<'a>[ serde_yaml::Value::as_str ](v: &'a serde_yaml::Value) -> (r: Option<
    &'a str,
>)
    ensures
        r is Some <==> value_text(*v) is Some,
        r matches Some(s) ==> value_text(*v) == Some(s@),
;

/// `Value::as_u64`: the node's number, if it is an integer node that fits.
pub assume_specification[ serde_yaml::Value::as_u64 ](v: &serde_yaml::Value) -> (r: Option<u64>)
    ensures
        r == value_u64(*v),
;

/// `Value::as_bool`: the node's truth value, if it is a boolean node.
pub assume_specification[ serde_yaml::Value::as_bool ](v: &serde_yaml::Value) -> (r: Option<bool>)
    ensures
        r == value_bool(*v),
;

/// `Value::as_sequence`: the node's items, if it is a sequence node.
pub assume_specification<'a>[ serde_yaml::Value::as_sequence ](v: &'a serde_yaml::Value) -> (r:
    Option<&'a Vec<serde_yaml::Value>>)
    ensures
        r is Some <==> value_items(*v) is Some,
        r matches Some(items) ==> value_items(*v) == Some(items@),
;

/// `Mapping::new`: a mapping without entries.
pub assume_specification[ serde_yaml::Mapping::new ]() -> (m: serde_yaml::Mapping)
    ensures
        mapping_fields(m) == no_fields(),
;

/// `Value::get` with a text key: the entry under that key if the node is a
/// mapping that has one, else nothing.
#[verifier::external_body]
pub(crate) fn field<'a>(v: &'a serde_yaml::Value, key: &str) -> (r: Option<&'a serde_yaml::Value>)
    ensures
        r is Some <==> (value_fields(*v) matches Some(m) && m.contains_key(key@)),
        r matches Some(x) ==> value_fields(*v).unwrap()[key@] == *x,
{
    v.get(key)
}

/// `Mapping::insert` under a string key: the mapping then holds the value
/// under that key, and every other string key holds what it held.
#[verifier::external_body]
pub(crate) fn put(m: &mut serde_yaml::Mapping, key: &str, value: serde_yaml::Value)
    ensures
        mapping_fields(*final(m)) == mapping_fields(*old(m)).insert(key@, value),
{
    m.insert(serde_yaml::Value::String(key.to_owned()), value);
}

/// `Value::from` on a `String`: a string node with that text.
#[verifier::external_body]
pub(crate) fn text_value(s: String) -> (v: serde_yaml::Value)
    ensures
        value_text(v) == Some(s@),
{
    serde_yaml::Value::from(s)
}

/// `Value::from` on a `u64`: an integer node with that number.
#[verifier::external_body]
pub(crate) fn number_value(n: u64) -> (v: serde_yaml::Value)
    ensures
        value_u64(v) == Some(n),
{
    serde_yaml::Value::from(n)
}

/// `Value::from` on a `bool`: a boolean node with that truth value.
#[verifier::external_body]
pub(crate) fn flag_value(b: bool) -> (v: serde_yaml::Value)
    ensures
        value_bool(v) == Some(b),
{
    serde_yaml::Value::from(b)
}

/// `Value::from` on a `Vec` of nodes: a sequence node with those items.
#[verifier::external_body]
pub(crate) fn list_value(items: Vec<serde_yaml::Value>) -> (v: serde_yaml::Value)
    ensures
        value_items(v) == Some(items@),
{
    serde_yaml::Value::from(items)
}

/// `Value::from` on a `Mapping`: a mapping node with those entries.
#[verifier::external_body]
pub(crate) fn table_value(m: serde_yaml::Mapping) -> (v: serde_yaml::Value)
    ensures
        value_fields(v) == Some(mapping_fields(m)),
{
    serde_yaml::Value::from(m)
}

/// `serde_yaml::from_str` at type `Value`: the document that the text
/// holds, or the error. The same text always gives the same answer.
#[verifier::external_body]
pub(crate) fn parse(text: &str) -> (r: Result<serde_yaml::Value, serde_yaml::Error>)
    ensures
        r is Ok <==> parsed(text@) is Some,
        r matches Ok(v) ==> parsed(text@) == Some(v),
{
    serde_yaml::from_str::<serde_yaml::Value>(text)
}

/// `serde_yaml::to_string` on a `Value`: the document as text, or the
/// error. The same document always gives the same answer.
#[verifier::external_body]
pub(crate) fn render(v: &serde_yaml::Value) -> (r: Result<String, serde_yaml::Error>)
    ensures
        r is Ok <==> rendered(*v) is Some,
        r matches Ok(s) ==> rendered(*v) == Some(s@),
{
    serde_yaml::to_string(v)
}

} // verus!
