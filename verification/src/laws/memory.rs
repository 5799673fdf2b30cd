//! Memory schemas on the wire, part by part.

use vstd::prelude::*;
use crate::json::{Entries, Tree};
use crate::laws::message::lemma_lone_names;
use crate::memory::{keys_decoded, KeyView, MemoryKey, MemoryKind, MemorySchema};
use crate::wire::Wire;

verus! {

/// Several keys are read exactly where each of them is, in order.
pub proof fn many_keys_read(ts: Seq<Tree>, nested: bool, vs: Seq<KeyView>)
    ensures
        keys_decoded(ts, nested) == Some(vs) <==> {
            &&& ts.len() == vs.len()
            &&& forall|i: int|
                0 <= i < vs.len() ==> MemoryKey::decoded(ts[i], nested) == Some(#[trigger] vs[i])
        },
{
    if ts.len() == vs.len() && (forall|i: int|
        0 <= i < vs.len() ==> MemoryKey::decoded(ts[i], nested) == Some(#[trigger] vs[i])) {
        assert forall|i: int| 0 <= i < ts.len() implies #[trigger] MemoryKey::decoded(
            ts[i],
            nested,
        ) is Some by {
            assert(MemoryKey::decoded(ts[i], nested) == Some(vs[i]));
        }
        assert(keys_decoded(ts, nested)->Some_0 =~= vs);
    }
}

/// The names differ from one another.
proof fn lemma_kind_names()
    ensures
        "per_session"@.len() == 11,
        "per_user"@.len() == 8,
        "global"@.len() == 6,
{
    reveal_strlit("per_session");
    reveal_strlit("per_user");
    reveal_strlit("global");
}

/// A memory kind is written as its name, and read from that, from an object that
/// holds just that name with `null`, and within tagged values from one that
/// holds it with an empty object.
pub proof fn kind_on_the_wire(v: MemoryKind, t: Tree, nested: bool)
    ensures
        ({
            let name = match v {
                MemoryKind::PerSession => "per_session"@,
                MemoryKind::PerUser => "per_user"@,
                MemoryKind::Global => "global"@,
            };
            &&& MemoryKind::encoded(v) == Tree::Text(name)
            &&& MemoryKind::decoded(t, nested) == Some(v) <==> {
                ||| t == Tree::Text(name)
                ||| t == Tree::Record(Entries::empty().insert(name, Tree::Null))
                ||| nested && t == Tree::Record(
                    Entries::empty().insert(name, Tree::Record(Entries::empty())),
                )
            }
        }),
{
    lemma_kind_names();
    lemma_lone_names();
}

/// The names differ from one another.
proof fn lemma_key_names()
    ensures
        "name"@.len() == 4,
        "kind"@.len() == 4,
        "description"@.len() == 11,
        "name"@[0] != "kind"@[0],
{
    reveal_strlit("name");
    reveal_strlit("kind");
    reveal_strlit("description");
}

/// A memory key is read from an object exactly where each of its parts is what the
/// member of that name holds. No other member matters.
pub proof fn key_read_from_object(e: Entries, nested: bool, v: KeyView)
    ensures
        MemoryKey::decoded(Tree::Record(e), nested) == Some(v) <==> {
            &&& e.contains_key("name"@) && e["name"@] == Tree::Text(v.name)
            &&& e.contains_key("kind"@) && MemoryKind::decoded(e["kind"@], nested) == Some(v.kind)
            &&& e.contains_key("description"@) && e["description"@] == Tree::Text(v.description)
        },
{
    lemma_key_names();
}

/// A memory key is read from an array exactly where its parts stand there in the
/// order of their declaration and nothing else does.
pub proof fn key_read_from_array(s: Seq<Tree>, nested: bool, v: KeyView)
    ensures
        MemoryKey::decoded(Tree::List(s), nested) == Some(v) <==> {
            &&& 3 <= s.len() <= 3
            &&& s.len() > 0 && s[0] == Tree::Text(v.name)
            &&& s.len() > 1 && MemoryKind::decoded(s[1], nested) == Some(v.kind)
            &&& s.len() > 2 && s[2] == Tree::Text(v.description)
        },
{
    lemma_key_names();
}

/// A memory key is read from nothing but objects and arrays.
pub proof fn key_read_from_nothing_else(t: Tree, nested: bool)
    requires
        !(t is Record),
        !(t is List),
    ensures
        MemoryKey::decoded(t, nested) is None,
{
}

/// A memory key is written as an object whose members hold its parts, each under
/// its name.
pub proof fn key_written(v: KeyView)
    ensures
        MemoryKey::encoded(v) is Record,
        ({
            let e = MemoryKey::encoded(v)->Record_0;
            &&& forall|k: Seq<char>| #[trigger]
                e.contains_key(k) <==> {
                    ||| k == "name"@
                    ||| k == "kind"@
                    ||| k == "description"@
                }
            &&& e["name"@] == Tree::Text(v.name)
            &&& e["kind"@] == MemoryKind::encoded(v.kind)
            &&& e["description"@] == Tree::Text(v.description)
        }),
{
    lemma_key_names();
}

/// The names differ from one another.
proof fn lemma_schema_names()
    ensures
        "keys"@.len() == 4,
{
    reveal_strlit("keys");
}

/// A memory schema is read from an object exactly where each of its parts is what the
/// member of that name holds. No other member matters.
pub proof fn schema_read_from_object(e: Entries, nested: bool, v: Seq<KeyView>)
    ensures
        MemorySchema::decoded(Tree::Record(e), nested) == Some(v) <==> {
            &&& e.contains_key("keys"@)
            &&& e["keys"@] is List
            &&& e["keys"@]->List_0.len() == v.len()
            &&& forall|i: int|
                0 <= i < v.len() ==> MemoryKey::decoded(e["keys"@]->List_0[i], nested)
                    == Some(#[trigger] v[i])
        },
{
    lemma_schema_names();
    many_keys_read(e["keys"@]->List_0, nested, v);
}

/// A memory schema is read from an array exactly where its parts stand there in the
/// order of their declaration and nothing else does.
pub proof fn schema_read_from_array(s: Seq<Tree>, nested: bool, v: Seq<KeyView>)
    ensures
        MemorySchema::decoded(Tree::List(s), nested) == Some(v) <==> {
            &&& 1 <= s.len() <= 1
            &&& s.len() > 0
            &&& s[0] is List
            &&& s[0]->List_0.len() == v.len()
            &&& forall|i: int|
                0 <= i < v.len() ==> MemoryKey::decoded(s[0]->List_0[i], nested)
                    == Some(#[trigger] v[i])
        },
{
    lemma_schema_names();
    many_keys_read(s[0]->List_0, nested, v);
}

/// A memory schema is read from nothing but objects and arrays.
pub proof fn schema_read_from_nothing_else(t: Tree, nested: bool)
    requires
        !(t is Record),
        !(t is List),
    ensures
        MemorySchema::decoded(t, nested) is None,
{
}

/// A memory schema is written as an object whose members hold its parts, each under
/// its name.
pub proof fn schema_written(v: Seq<KeyView>)
    ensures
        MemorySchema::encoded(v) is Record,
        ({
            let e = MemorySchema::encoded(v)->Record_0;
            &&& forall|k: Seq<char>| #[trigger] e.contains_key(k) <==> (k == "keys"@)
            &&& e["keys"@] is List
            &&& e["keys"@]->List_0.len() == v.len()
            &&& forall|i: int|
                0 <= i < v.len() ==> #[trigger] e["keys"@]->List_0[i]
                    == MemoryKey::encoded(v[i])
        }),
{
    lemma_schema_names();
}

/// The views of keys and schemas hold their parts, in order.
pub proof fn schema_says(schema: MemorySchema, key: MemoryKey)
    ensures
        key@.name == key.name@,
        key@.kind == key.kind,
        key@.description == key.description@,
        schema@.len() == schema.keys@.len(),
        forall|i: int| 0 <= i < schema.keys@.len() ==> #[trigger] schema@[i] == schema.keys@[i]@,
{
}

} // verus!
