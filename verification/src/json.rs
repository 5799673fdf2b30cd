//! JSON values, as the wire format reads and builds them.
//!
//! The values themselves, their text and their parser are those of
//! `serde_json`. What the library's contracts say of them is said over
//! [`Tree`]: the document that a value stands for. [`value_tree`] names that
//! document, and the functions of this module are the only ones that look
//! inside a value.

use vstd::prelude::*;

verus! {

/// The JSON value of `serde_json`.
#[verifier::external_type_specification]
#[verifier::external_body]
pub struct ExValue(serde_json::Value);

/// The JSON number of `serde_json`.
#[verifier::external_type_specification]
#[verifier::external_body]
pub struct ExNumber(serde_json::Number);

/// The JSON object of `serde_json`.
#[verifier::external_type_specification]
#[verifier::external_body]
#[verifier::reject_recursive_types(K)]
#[verifier::reject_recursive_types(V)]
pub struct ExMap<K, V>(serde_json::Map<K, V>);

/// The parse error of `serde_json`.
#[verifier::external_type_specification]
#[verifier::external_body]
pub struct ExError(serde_json::Error);

/// What a JSON number is.
pub enum Numeral {
    /// An integer from 0 to `u64::MAX`.
    Natural(u64),
    /// An integer below 0, down to `i64::MIN`.
    Negative(i64),
    /// Any other number.
    Fraction(serde_json::Number),
}

/// A JSON document.
///
/// An object is a finite map: its keys have no order, and none occurs twice.
pub enum Tree {
    Null,
    Bool(bool),
    Number(Numeral),
    Text(Seq<char>),
    List(Seq<Tree>),
    Record(Entries),
}

/// The members of a JSON object.
pub type Entries = Map<Seq<char>, Tree>;

/// The document that a `serde_json` value stands for.
pub uninterp spec fn value_tree(value: serde_json::Value) -> Tree;

/// The members of a `serde_json` object.
pub uninterp spec fn map_entries(map: serde_json::Map<String, serde_json::Value>) -> Entries;

/// What a `serde_json` number is.
pub uninterp spec fn number_numeral(number: serde_json::Number) -> Numeral;

/// The text that `serde_json` prints for a document: compact, with the keys
/// of each object in ascending order.
pub uninterp spec fn json_printed(tree: Tree) -> Seq<char>;

/// The document that `serde_json` reads from a text, or `None` where the text
/// is not JSON or nests deeper than its parser goes.
pub uninterp spec fn json_parsed(text: Seq<char>) -> Option<Tree>;

/// The documents that a sequence of values stands for.
pub open spec fn trees(values: Seq<serde_json::Value>) -> Seq<Tree> {
    values.map_values(|value: serde_json::Value| value_tree(value))
}

/// How many arrays and objects `serde_json` lets one text nest.
pub open spec fn nesting_limit() -> nat {
    127
}

/// `tree` has no more than `levels` arrays and objects inside one another, and
/// its numbers are integers.
///
/// These are the documents whose printed text reads back as they were. A
/// number with a fraction is printed in the shortest form that identifies it,
/// and the parser may take that form for a neighbouring number.
pub open spec fn reprints(tree: Tree, levels: nat) -> bool
    decreases tree,
{
    match tree {
        Tree::Number(Numeral::Natural(_)) => true,
        Tree::Number(Numeral::Negative(n)) => n < 0,
        Tree::Number(Numeral::Fraction(_)) => false,
        Tree::List(items) => levels > 0 && forall|i: int|
            0 <= i < items.len() ==> reprints(#[trigger] items[i], (levels - 1) as nat),
        Tree::Record(entries) => levels > 0 && forall|k: Seq<char>|
            entries.contains_key(k) ==> reprints(#[trigger] entries[k], (levels - 1) as nat),
        _ => true,
    }
}

/// A JSON value opened up by one level.
pub enum Node {
    Null,
    Bool(bool),
    Number(serde_json::Number),
    Text(String),
    List(Vec<serde_json::Value>),
    Record(serde_json::Map<String, serde_json::Value>),
}

impl Node {
    /// The document that the node stands for.
    pub open spec fn tree(self) -> Tree {
        match self {
            Node::Null => Tree::Null,
            Node::Bool(b) => Tree::Bool(b),
            Node::Number(n) => Tree::Number(number_numeral(n)),
            Node::Text(s) => Tree::Text(s@),
            Node::List(items) => Tree::List(trees(items@)),
            Node::Record(entries) => Tree::Record(map_entries(entries)),
        }
    }
}

/// Opens a `serde_json::Value`: one node for each of its variants, with the
/// variant's own content. Trusted: the node stands for the value's document.
#[verifier::external_body]
pub(crate) fn open_value(value: serde_json::Value) -> (node: Node)
    ensures
        node.tree() == value_tree(value),
{
    match value {
        serde_json::Value::Null => Node::Null,
        serde_json::Value::Bool(b) => Node::Bool(b),
        serde_json::Value::Number(n) => Node::Number(n),
        serde_json::Value::String(s) => Node::Text(s),
        serde_json::Value::Array(items) => Node::List(items),
        serde_json::Value::Object(entries) => Node::Record(entries),
    }
}

/// Builds a `serde_json::Value`: one of its variants for each node, with the
/// node's own content. Trusted: the value stands for the node's document.
#[verifier::external_body]
pub(crate) fn close_value(node: Node) -> (value: serde_json::Value)
    ensures
        value_tree(value) == node.tree(),
{
    match node {
        Node::Null => serde_json::Value::Null,
        Node::Bool(b) => serde_json::Value::Bool(b),
        Node::Number(n) => serde_json::Value::Number(n),
        Node::Text(s) => serde_json::Value::String(s),
        Node::List(items) => serde_json::Value::Array(items),
        Node::Record(entries) => serde_json::Value::Object(entries),
    }
}

/// `Clone` of `serde_json::Value`. Trusted: the copy stands for the same
/// document.
pub assume_specification[ <serde_json::Value as Clone>::clone ](
    value: &serde_json::Value,
) -> (copy: serde_json::Value)
    ensures
        value_tree(copy) == value_tree(*value),
;

/// `serde_json::Map::new`. Trusted: the new object has no members.
#[verifier::external_body]
pub(crate) fn empty_map() -> (map: serde_json::Map<String, serde_json::Value>)
    ensures
        map_entries(map) == Entries::empty(),
{
    serde_json::Map::new()
}

/// `serde_json::Map::insert`. Trusted: the key gets the value, whether it was
/// there before or not, and the other members stay.
#[verifier::external_body]
pub(crate) fn map_insert(
    map: &mut serde_json::Map<String, serde_json::Value>,
    key: &str,
    value: serde_json::Value,
)
    ensures
        map_entries(*final(map)) == map_entries(*old(map)).insert(key@, value_tree(value)),
{
    map.insert(key.to_string(), value);
}

/// `serde_json::Map::remove`. Trusted: it hands out the key's value, where
/// there is one, and the other members stay.
#[verifier::external_body]
pub(crate) fn map_remove(
    map: &mut serde_json::Map<String, serde_json::Value>,
    key: &str,
) -> (value: Option<serde_json::Value>)
    ensures
        map_entries(*final(map)) == map_entries(*old(map)).remove(key@),
        value is Some <==> map_entries(*old(map)).contains_key(key@),
        value matches Some(v) ==> value_tree(v) == map_entries(*old(map))[key@],
{
    map.remove(key)
}

/// Iteration over a `serde_json::Map` by value. Trusted: every member comes
/// out once, with its key, and nothing else does. The order is not stated.
#[verifier::external_body]
pub(crate) fn map_members(map: serde_json::Map<String, serde_json::Value>) -> (members: Vec<
    (String, serde_json::Value),
>)
    ensures
        forall|i: int|
            0 <= i < members@.len() ==> map_entries(map).contains_key(
                (#[trigger] members@[i]).0@,
            ) && map_entries(map)[members@[i].0@] == value_tree(members@[i].1),
        forall|i: int, j: int|
            0 <= i < j < members@.len() ==> (#[trigger] members@[i]).0@ != (
            #[trigger] members@[j]).0@,
        forall|k: Seq<char>| #[trigger]
            map_entries(map).contains_key(k) ==> exists|i: int|
                0 <= i < members@.len() && (#[trigger] members@[i]).0@ == k,
{
    map.into_iter().collect()
}

/// `serde_json::Number::as_u64`. Trusted: it gives the number exactly where it
/// is an integer from 0 to `u64::MAX`.
#[verifier::external_body]
pub(crate) fn number_natural(number: &serde_json::Number) -> (natural: Option<u64>)
    ensures
        natural == (match number_numeral(*number) {
            Numeral::Natural(n) => Some(n),
            _ => None,
        }),
{
    number.as_u64()
}

/// `Display` of `serde_json::Value`, which prints it as compact JSON. Trusted:
/// the text depends on the value's document alone.
#[verifier::external_body]
pub(crate) fn print_value(value: &serde_json::Value) -> (text: String)
    ensures
        text@ == json_printed(value_tree(*value)),
{
    value.to_string()
}

/// `serde_json::from_str` into a `serde_json::Value`. Trusted: what is read, or
/// that nothing is, depends on the text alone; and the printed text of a
/// document that [`reprints`] within the parser's nesting limit is read as that
/// document. Which error is returned is not stated.
#[verifier::external_body]
pub(crate) fn parse_value(text: &str) -> (parsed: Result<serde_json::Value, serde_json::Error>)
    ensures
        parsed is Ok <==> json_parsed(text@) is Some,
        parsed matches Ok(value) ==> json_parsed(text@) == Some(value_tree(value)),
        forall|tree: Tree|
            text@ == #[trigger] json_printed(tree) && reprints(tree, nesting_limit())
                ==> parsed is Ok && value_tree(parsed->Ok_0) == tree,
{
    serde_json::from_str(text)
}

} // verus!
