//! The wire format: how values of the library's types are written as JSON and
//! read back.
//!
//! A struct is written as an object with one member per field. It is read from
//! such an object, whose other members are ignored, or from an array of its
//! fields in the order of their declaration. An enum whose variants carry data
//! is a struct whose first field, the tag, names the variant. An enum whose
//! variants carry nothing is the name of the variant.
//!
//! Inside a tagged value ("nested" below) two more spellings are read: a tag
//! may be given by the position of its variant, and the lone member of an
//! object that names a variant may be an empty object.
//!
//! Values are written to and read from a `serde_json::Value`, a JSON document
//! in which no object holds a key twice. The library reads no text of others:
//! only [`Wire::relayed`] goes through text, and that is the value's own.

use vstd::prelude::*;
use crate::json::{
    close_value, json_parsed, json_printed, map_entries, map_members, map_remove, nesting_limit,
    number_natural, open_value, parse_value, print_value, reprints, trees, value_tree, Entries,
    Node, Numeral, Tree,
};

verus! {

/// Why a value could not be read.
#[derive(Debug, Clone, Copy, PartialEq, Eq, Structural)]
pub enum WireError {
    /// The text is not JSON, or nests too deep.
    Malformed,
    /// The JSON does not have the shape of the type.
    Mismatch,
}

/// What a document holds for one field.
pub enum Member {
    /// The field is there.
    Given(Tree),
    /// An object that lacks the field.
    Absent,
    /// An array that ends before the field.
    Short,
}

impl Member {
    /// The document of a field that has to be there.
    pub open spec fn tree(self) -> Option<Tree> {
        match self {
            Member::Given(t) => Some(t),
            _ => None,
        }
    }

    /// The text of a field that has to be there.
    pub open spec fn text(self) -> Option<Seq<char>> {
        match self {
            Member::Given(Tree::Text(s)) => Some(s),
            _ => None,
        }
    }

    /// The items of an array field that has to be there.
    pub open spec fn items(self) -> Option<Seq<Tree>> {
        match self {
            Member::Given(Tree::List(items)) => Some(items),
            _ => None,
        }
    }

    /// A flag that is `false` where it is not given.
    pub open spec fn flag(self) -> Option<bool> {
        match self {
            Member::Given(Tree::Bool(b)) => Some(b),
            Member::Given(_) => None,
            _ => Some(false),
        }
    }

    /// An optional field: `null` and a missing member both stand for nothing.
    pub open spec fn optional(self) -> Option<Option<Tree>> {
        match self {
            Member::Given(Tree::Null) => Some(None),
            Member::Given(t) => Some(Some(t)),
            Member::Absent => Some(None),
            Member::Short => None,
        }
    }

    /// An optional text.
    pub open spec fn optional_text(self) -> Option<Option<Seq<char>>> {
        match self.optional() {
            Some(Some(Tree::Text(s))) => Some(Some(s)),
            Some(None) => Some(None),
            _ => None,
        }
    }

    /// An optional field that an array, too, may leave out.
    pub open spec fn omittable(self) -> Option<Option<Tree>> {
        match self {
            Member::Short => Some(None),
            _ => self.optional(),
        }
    }
}

impl Tree {
    /// The next field of a struct: an object's member of that name, or an
    /// array's first item.
    pub open spec fn member(self, name: Seq<char>) -> Member {
        match self {
            Tree::Record(entries) => if entries.contains_key(name) {
                Member::Given(entries[name])
            } else {
                Member::Absent
            },
            Tree::List(items) => if items.len() > 0 {
                Member::Given(items[0])
            } else {
                Member::Short
            },
            _ => Member::Short,
        }
    }

    /// What is left once [`Tree::member`] is taken.
    pub open spec fn without(self, name: Seq<char>) -> Tree {
        match self {
            Tree::Record(entries) => Tree::Record(entries.remove(name)),
            Tree::List(items) => if items.len() > 0 {
                Tree::List(items.skip(1))
            } else {
                self
            },
            _ => self,
        }
    }

    /// A struct may end here: an object may have more members, an array no
    /// more items.
    pub open spec fn ends(self) -> bool {
        match self {
            Tree::Record(_) => true,
            Tree::List(items) => items.len() == 0,
            _ => false,
        }
    }

    /// The document names the variant `name` of an enum without data.
    pub open spec fn names(self, nested: bool, name: Seq<char>) -> bool {
        ||| self == Tree::Text(name)
        ||| self == Tree::Record(Entries::empty().insert(name, Tree::Null))
        ||| nested && self == Tree::Record(
            Entries::empty().insert(name, Tree::Record(Entries::empty())),
        )
    }

    /// The document is the tag of the variant `name`, the one at `position`.
    pub open spec fn tags(self, nested: bool, position: u64, name: Seq<char>) -> bool {
        ||| self == Tree::Text(name)
        ||| nested && self == Tree::Number(Numeral::Natural(position))
    }
}

impl Member {
    /// The field is the tag of the variant `name`, the one at `position`.
    pub open spec fn tags(self, nested: bool, position: u64, name: Seq<char>) -> bool {
        self matches Member::Given(t) && t.tags(nested, position, name)
    }
}

/// What a value holds for one field.
pub(crate) enum Slot {
    Given(serde_json::Value),
    Absent,
    Short,
}

impl Slot {
    pub(crate) open spec fn member(self) -> Member {
        match self {
            Slot::Given(v) => Member::Given(value_tree(v)),
            Slot::Absent => Member::Absent,
            Slot::Short => Member::Short,
        }
    }

    pub(crate) fn value(self) -> (value: Option<serde_json::Value>)
        ensures
            value is Some <==> self.member().tree() is Some,
            value matches Some(v) ==> self.member().tree() == Some(value_tree(v)),
    {
        match self {
            Slot::Given(v) => Some(v),
            _ => None,
        }
    }

    pub(crate) fn text(self) -> (text: Option<String>)
        ensures
            text is Some <==> self.member().text() is Some,
            text matches Some(s) ==> self.member().text() == Some(s@),
    {
        match self {
            Slot::Given(v) => match open_value(v) {
                Node::Text(s) => Some(s),
                _ => None,
            },
            _ => None,
        }
    }

    pub(crate) fn items(self) -> (items: Option<Vec<serde_json::Value>>)
        ensures
            items is Some <==> self.member().items() is Some,
            items matches Some(v) ==> self.member().items() == Some(trees(v@)),
    {
        match self {
            Slot::Given(v) => match open_value(v) {
                Node::List(items) => Some(items),
                _ => None,
            },
            _ => None,
        }
    }

    pub(crate) fn flag(self) -> (flag: Option<bool>)
        ensures
            flag == self.member().flag(),
    {
        match self {
            Slot::Given(v) => match open_value(v) {
                Node::Bool(b) => Some(b),
                _ => None,
            },
            _ => Some(false),
        }
    }

    pub(crate) fn optional(self) -> (value: Option<Option<serde_json::Value>>)
        ensures
            value is Some <==> self.member().optional() is Some,
            value matches Some(None) ==> self.member().optional() == Some(None::<Tree>),
            value matches Some(Some(v)) ==> self.member().optional() == Some(Some(value_tree(v))),
    {
        match self {
            Slot::Given(v) => match open_value(v) {
                Node::Null => Some(None),
                node => Some(Some(close_value(node))),
            },
            Slot::Absent => Some(None),
            Slot::Short => None,
        }
    }

    pub(crate) fn optional_text(self) -> (text: Option<Option<String>>)
        ensures
            text is Some <==> self.member().optional_text() is Some,
            text matches Some(None) ==> self.member().optional_text() == Some(None::<Seq<char>>),
            text matches Some(Some(s)) ==> self.member().optional_text() == Some(Some(s@)),
    {
        match self.optional() {
            Some(Some(v)) => match open_value(v) {
                Node::Text(s) => Some(Some(s)),
                _ => None,
            },
            Some(None) => Some(None),
            None => None,
        }
    }

    pub(crate) fn omittable(self) -> (value: Option<Option<serde_json::Value>>)
        ensures
            value is Some <==> self.member().omittable() is Some,
            value matches Some(None) ==> self.member().omittable() == Some(None::<Tree>),
            value matches Some(Some(v)) ==> self.member().omittable() == Some(Some(value_tree(v))),
    {
        match self {
            Slot::Short => Some(None),
            slot => slot.optional(),
        }
    }
}

/// The fields of a struct that is being read.
pub(crate) enum Fields {
    Record(serde_json::Map<String, serde_json::Value>),
    List(Vec<serde_json::Value>),
}

impl Fields {
    pub(crate) open spec fn tree(self) -> Tree {
        match self {
            Fields::Record(entries) => Tree::Record(map_entries(entries)),
            Fields::List(items) => Tree::List(trees(items@)),
        }
    }

    pub(crate) fn open(value: serde_json::Value) -> (fields: Option<Fields>)
        ensures
            fields is None ==> !(value_tree(value) is Record) && !(value_tree(value) is List),
            fields matches Some(f) ==> f.tree() == value_tree(value),
    {
        match open_value(value) {
            Node::Record(entries) => Some(Fields::Record(entries)),
            Node::List(items) => Some(Fields::List(items)),
            _ => None,
        }
    }

    pub(crate) fn take(&mut self, name: &str) -> (slot: Slot)
        ensures
            slot.member() == old(self).tree().member(name@),
            final(self).tree() == old(self).tree().without(name@),
    {
        match self {
            Fields::Record(entries) => match map_remove(entries, name) {
                Some(v) => Slot::Given(v),
                None => Slot::Absent,
            },
            Fields::List(items) => if items.len() > 0 {
                let ghost before = items@;
                let v = items.remove(0);
                assert(trees(items@) == trees(before).skip(1));
                Slot::Given(v)
            } else {
                Slot::Short
            },
        }
    }

    pub(crate) fn ends(&self) -> (ends: bool)
        ensures
            ends == self.tree().ends(),
    {
        match self {
            Fields::Record(_) => true,
            Fields::List(items) => items.len() == 0,
        }
    }
}

/// The tag of a tagged value that is being read.
pub(crate) enum Tag {
    Name(String),
    Position(u64),
}

impl Tag {
    pub(crate) open spec fn marks(self, position: u64, name: Seq<char>) -> bool {
        match self {
            Tag::Name(s) => s@ == name,
            Tag::Position(p) => p == position,
        }
    }

    pub(crate) fn read(slot: Slot, nested: bool) -> (tag: Option<Tag>)
        ensures
            tag is None ==> forall|position: u64, name: Seq<char>|
                !#[trigger] slot.member().tags(nested, position, name),
            tag matches Some(t) ==> forall|position: u64, name: Seq<char>|
                #[trigger] slot.member().tags(nested, position, name) == t.marks(position, name),
    {
        match slot {
            Slot::Given(v) => match open_value(v) {
                Node::Text(s) => Some(Tag::Name(s)),
                Node::Number(n) => if nested {
                    match number_natural(&n) {
                        Some(p) => Some(Tag::Position(p)),
                        None => None,
                    }
                } else {
                    None
                },
                _ => None,
            },
            _ => None,
        }
    }

    pub(crate) fn is(&self, position: u64, name: &str) -> (is: bool)
        ensures
            is == self.marks(position, name@),
    {
        match self {
            Tag::Name(s) => *s == String::from(name),
            Tag::Position(p) => *p == position,
        }
    }
}

/// Reads the name of a variant without data.
pub(crate) fn variant_name(value: serde_json::Value, nested: bool) -> (name: Option<String>)
    ensures
        name is None ==> forall|n: Seq<char>| !#[trigger] value_tree(value).names(nested, n),
        name matches Some(s) ==> forall|n: Seq<char>| #[trigger]
            value_tree(value).names(nested, n) <==> n == s@,
{
    match open_value(value) {
        Node::Text(s) => Some(s),
        Node::Record(entries) => {
            let mut members = map_members(entries);
            if members.len() != 1 {
                assert forall|n: Seq<char>| !#[trigger] value_tree(value).names(nested, n) by {
                    if members@.len() > 1 {
                        assert(map_entries(entries).contains_key(members@[0].0@));
                        assert(map_entries(entries).contains_key(members@[1].0@));
                    }
                    if value_tree(value).names(nested, n) {
                        assert(map_entries(entries).contains_key(n));
                    }
                }
                return None;
            }
            assert(map_entries(entries).contains_key(members@[0].0@));
            assert(map_entries(entries) == Entries::empty().insert(
                members@[0].0@,
                value_tree(members@[0].1),
            ));
            let (key, lone) = members.remove(0);
            assert forall|n: Seq<char>| #[trigger] value_tree(value).names(nested, n) implies {
                &&& n == key@
                &&& value_tree(lone) == Tree::Null || nested && value_tree(lone) == Tree::Record(
                    Entries::empty(),
                )
            } by {
                assert(map_entries(entries).contains_key(n));
            }
            match open_value(lone) {
                Node::Null => Some(key),
                Node::Record(inner) => {
                    let within = map_members(inner);
                    if nested && within.len() == 0 {
                        assert(map_entries(inner) == Entries::empty());
                        Some(key)
                    } else {
                        proof {
                            if within@.len() > 0 {
                                assert(map_entries(inner).contains_key(within@[0].0@));
                            }
                        }
                        None
                    }
                },
                _ => None,
            }
        },
        _ => None,
    }
}

/// `From<&str>` of `String`. Trusted: the string holds the same text.
pub assume_specification<'a>[ <String as From<&'a str>>::from ](text: &str) -> (owned: String)
    ensures
        owned@ == text@,
;

/// `From` of a type into itself. Trusted: the value comes back as it was.
pub assume_specification<Any>[ <Any as std::convert::From<Any>>::from ](given: Any) -> (same: Any)
    ensures
        same == given,
;

/// A text as a JSON value.
pub(crate) fn text_value(text: &str) -> (value: serde_json::Value)
    ensures
        value_tree(value) == Tree::Text(text@),
{
    close_value(Node::Text(String::from(text)))
}

/// A flag as a JSON value.
pub(crate) fn flag_value(flag: bool) -> (value: serde_json::Value)
    ensures
        value_tree(value) == Tree::Bool(flag),
{
    close_value(Node::Bool(flag))
}

/// The outcome `read` is the one that `expected` calls for: the value where
/// there is one, and a mismatch where there is none.
pub open spec fn reads_as<T: View>(read: Result<T, WireError>, expected: Option<T::V>) -> bool {
    match read {
        Ok(x) => expected == Some(x@),
        Err(e) => expected is None && e == WireError::Mismatch,
    }
}

/// A type that travels as JSON.
pub trait Wire: Sized + View {
    /// The document that a value is written as.
    spec fn encoded(v: Self::V) -> Tree;

    /// The value that is read from a document, or `None` where the document
    /// does not have the shape of the type.
    spec fn decoded(t: Tree, nested: bool) -> Option<Self::V>;

    /// The value is one that its own document gives back.
    spec fn faithful(v: Self::V) -> bool;

    /// What is written is read back, wherever it stands.
    proof fn round_trip(v: Self::V, nested: bool)
        requires
            Self::faithful(v),
        ensures
            Self::decoded(Self::encoded(v), nested) == Some(v),
    ;

    /// Writes the value.
    fn to_value(&self) -> (value: serde_json::Value)
        ensures
            value_tree(value) == Self::encoded(self@),
    ;

    /// Reads a value that stands inside a tagged value (`nested`) or does not.
    fn decode(value: serde_json::Value, nested: bool) -> (read: Result<Self, WireError>)
        ensures
            reads_as(read, Self::decoded(value_tree(value), nested)),
    ;

    /// Reads a value.
    fn from_value(value: serde_json::Value) -> (read: Result<Self, WireError>)
        ensures
            reads_as(read, Self::decoded(value_tree(value), false)),
            forall|v: Self::V|
                value_tree(value) == #[trigger] Self::encoded(v) && Self::faithful(v)
                    ==> read is Ok && read->Ok_0@ == v,
    {
        proof {
            assert forall|v: Self::V|
                value_tree(value) == #[trigger] Self::encoded(v) && Self::faithful(
                    v,
                ) implies Self::decoded(value_tree(value), false) == Some(v) by {
                Self::round_trip(v, false);
            }
        }
        Self::decode(value, false)
    }

    /// The value as a reader has it, once it has travelled as JSON text.
    /// A value that is faithful, and whose document [`reprints`], arrives as it
    /// was.
    fn relayed(&self) -> (read: Result<Self, WireError>)
        ensures
            match json_parsed(json_printed(Self::encoded(self@))) {
                Some(t) => reads_as(read, Self::decoded(t, false)),
                None => read is Err && read->Err_0 == WireError::Malformed,
            },
            Self::faithful(self@) && reprints(Self::encoded(self@), nesting_limit())
                ==> read is Ok && read->Ok_0@ == self@,
    {
        let text = print_value(&self.to_value());
        match parse_value(&text) {
            Ok(value) => Self::from_value(value),
            Err(_) => Err(WireError::Malformed),
        }
    }
}

} // verus!
