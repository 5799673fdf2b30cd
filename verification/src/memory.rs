//! Memory **schema** declaration (no storage).
//!
//! A harness can declare which long-term context keys it expects to read or
//! write via a [`MemorySchema`]. Storage backends, fetch policies and
//! summarisation live elsewhere; this module only owns the schema vocabulary,
//! so that schemas travel across crate boundaries.

use vstd::prelude::*;
use crate::json::{
    close_value, empty_map, map_insert, nesting_limit, reprints, trees, value_tree, Node, Tree,
};
use crate::wire::{text_value, variant_name, Fields, Wire, WireError};

verus! {

/// Lifetime classification of a memory key.
///
/// Used by storage backends to decide where a value lives. Schema declarations
/// in this crate are pure metadata.
#[derive(Debug, Clone, Copy, PartialEq, Eq, Hash, Structural)]
pub enum MemoryKind {
    /// Lives only for the current session; discarded when the session ends.
    PerSession,
    /// Tied to a specific user across all their sessions.
    PerUser,
    /// Shared across all sessions and users for this deployment.
    Global,
}

impl View for MemoryKind {
    type V = MemoryKind;

    open spec fn view(&self) -> MemoryKind {
        *self
    }
}

/// The name of a kind on the wire.
pub open spec fn kind_name(kind: MemoryKind) -> Seq<char> {
    match kind {
        MemoryKind::PerSession => "per_session"@,
        MemoryKind::PerUser => "per_user"@,
        MemoryKind::Global => "global"@,
    }
}

impl Wire for MemoryKind {
    open spec fn encoded(v: MemoryKind) -> Tree {
        Tree::Text(kind_name(v))
    }

    open spec fn decoded(t: Tree, nested: bool) -> Option<MemoryKind> {
        if t.names(nested, "per_session"@) {
            Some(MemoryKind::PerSession)
        } else if t.names(nested, "per_user"@) {
            Some(MemoryKind::PerUser)
        } else if t.names(nested, "global"@) {
            Some(MemoryKind::Global)
        } else {
            None
        }
    }

    open spec fn faithful(v: MemoryKind) -> bool {
        true
    }

    proof fn round_trip(v: MemoryKind, nested: bool) {
        reveal_strlit("per_session");
        reveal_strlit("per_user");
        reveal_strlit("global");
        assert("per_session"@.len() == 11 && "per_user"@.len() == 8 && "global"@.len() == 6);
    }

    fn to_value(&self) -> (value: serde_json::Value) {
        match self {
            MemoryKind::PerSession => text_value("per_session"),
            MemoryKind::PerUser => text_value("per_user"),
            MemoryKind::Global => text_value("global"),
        }
    }

    fn decode(value: serde_json::Value, nested: bool) -> (read: Result<MemoryKind, WireError>) {
        match variant_name(value, nested) {
            Some(name) => if name == String::from("per_session") {
                Ok(MemoryKind::PerSession)
            } else if name == String::from("per_user") {
                Ok(MemoryKind::PerUser)
            } else if name == String::from("global") {
                Ok(MemoryKind::Global)
            } else {
                Err(WireError::Mismatch)
            },
            None => Err(WireError::Mismatch),
        }
    }
}

/// One declared memory slot.
///
/// `name` must be unique within a [`MemorySchema`] (see [`names_unique`]); the
/// schema is purely documentation until a storage backend reifies it.
#[derive(Debug, PartialEq, Eq)]
pub struct MemoryKey {
    /// Identifier the harness uses when reading or writing this slot.
    pub name: String,
    /// Lifetime classification.
    pub kind: MemoryKind,
    /// Free-form description; surfaced in UIs and logs.
    pub description: String,
}

/// What a [`MemoryKey`] says.
pub struct KeyView {
    pub name: Seq<char>,
    pub kind: MemoryKind,
    pub description: Seq<char>,
}

impl View for MemoryKey {
    type V = KeyView;

    open spec fn view(&self) -> KeyView {
        KeyView { name: self.name@, kind: self.kind, description: self.description@ }
    }
}

impl Clone for MemoryKey {
    fn clone(&self) -> (copy: MemoryKey)
        ensures
            copy@ == self@,
    {
        MemoryKey {
            name: self.name.clone(),
            kind: self.kind,
            description: self.description.clone(),
        }
    }
}

impl Wire for MemoryKey {
    open spec fn encoded(v: KeyView) -> Tree {
        Tree::Record(
            map![
                "name"@ => Tree::Text(v.name),
                "kind"@ => MemoryKind::encoded(v.kind),
                "description"@ => Tree::Text(v.description),
            ],
        )
    }

    open spec fn decoded(t: Tree, nested: bool) -> Option<KeyView> {
        let name = t.member("name"@).text();
        let rest = t.without("name"@);
        let kind = rest.member("kind"@).tree();
        let rest = rest.without("kind"@);
        let description = rest.member("description"@).text();
        let rest = rest.without("description"@);
        match (name, kind, description) {
            (Some(name), Some(kind), Some(description)) if rest.ends() => {
                match MemoryKind::decoded(kind, nested) {
                    Some(kind) => Some(KeyView { name, kind, description }),
                    None => None,
                }
            },
            _ => None,
        }
    }

    open spec fn faithful(v: KeyView) -> bool {
        true
    }

    proof fn round_trip(v: KeyView, nested: bool) {
        reveal_strlit("name");
        reveal_strlit("kind");
        reveal_strlit("description");
        assert("name"@.len() == 4 && "kind"@.len() == 4 && "name"@[0] != "kind"@[0]);
        assert("description"@.len() == 11);
        MemoryKind::round_trip(v.kind, nested);
    }

    fn to_value(&self) -> (value: serde_json::Value) {
        let mut map = empty_map();
        map_insert(&mut map, "name", text_value(&self.name));
        map_insert(&mut map, "kind", self.kind.to_value());
        map_insert(&mut map, "description", text_value(&self.description));
        close_value(Node::Record(map))
    }

    fn decode(value: serde_json::Value, nested: bool) -> (read: Result<MemoryKey, WireError>) {
        let mut fields = match Fields::open(value) {
            Some(fields) => fields,
            None => return Err(WireError::Mismatch),
        };
        let name = fields.take("name").text();
        let kind = fields.take("kind").value();
        let description = fields.take("description").text();
        match (name, kind, description) {
            (Some(name), Some(kind), Some(description)) if fields.ends() => {
                match MemoryKind::decode(kind, nested) {
                    Ok(kind) => Ok(MemoryKey { name, kind, description }),
                    Err(e) => Err(e),
                }
            },
            _ => Err(WireError::Mismatch),
        }
    }
}

/// The full memory contract a harness declares.
#[derive(Debug, PartialEq, Eq)]
pub struct MemorySchema {
    /// Declared memory keys.
    pub keys: Vec<MemoryKey>,
}

/// What each of several keys says, in order.
pub open spec fn keys_view(keys: Seq<MemoryKey>) -> Seq<KeyView> {
    keys.map_values(|key: MemoryKey| key@)
}

/// No two of the keys have the same name.
pub open spec fn names_unique(keys: Seq<KeyView>) -> bool {
    forall|i: int, j: int|
        0 <= i < j < keys.len() ==> (#[trigger] keys[i]).name != (#[trigger] keys[j]).name
}

impl View for MemorySchema {
    type V = Seq<KeyView>;

    open spec fn view(&self) -> Seq<KeyView> {
        keys_view(self.keys@)
    }
}

impl Default for MemorySchema {
    /// The schema of a harness that keeps nothing.
    fn default() -> (schema: MemorySchema)
        ensures
            schema@ == Seq::<KeyView>::empty(),
            names_unique(schema@),
    {
        MemorySchema { keys: Vec::new() }
    }
}

impl Clone for MemorySchema {
    fn clone(&self) -> (copy: MemorySchema)
        ensures
            copy@ == self@,
    {
        let mut keys: Vec<MemoryKey> = Vec::new();
        let n: usize = self.keys.len();
        for i in 0..n
            invariant
                n == self.keys@.len(),
                keys@.len() == i,
                forall|j: int| 0 <= j < i ==> (#[trigger] keys@[j])@ == self.keys@[j]@,
        {
            keys.push(self.keys[i].clone());
        }
        assert(keys_view(keys@) =~= self@);
        MemorySchema { keys }
    }
}

/// The documents that several keys are written as.
pub open spec fn keys_encoded(vs: Seq<KeyView>) -> Seq<Tree> {
    vs.map_values(|v: KeyView| MemoryKey::encoded(v))
}

/// The keys that are read from several documents: all of them, or none.
pub open spec fn keys_decoded(ts: Seq<Tree>, nested: bool) -> Option<Seq<KeyView>> {
    if forall|i: int|
        0 <= i < ts.len() ==> #[trigger] MemoryKey::decoded(ts[i], nested) is Some {
        Some(ts.map_values(|t: Tree| MemoryKey::decoded(t, nested)->Some_0))
    } else {
        None
    }
}

/// Reads keys, in order: all of them, or none.
fn decode_keys(values: Vec<serde_json::Value>, nested: bool) -> (read: Option<Vec<MemoryKey>>)
    ensures
        keys_decoded(trees(values@), nested) == (match read {
            Some(keys) => Some(keys_view(keys@)),
            None => None,
        }),
{
    let ghost ts = trees(values@);
    let mut keys: Vec<MemoryKey> = Vec::new();
    for value in it: values
        invariant
            it.seq() == values@,
            ts == trees(values@),
            keys@.len() == it.index(),
            forall|j: int|
                0 <= j < keys@.len() ==> #[trigger] MemoryKey::decoded(ts[j], nested) == Some(
                    keys@[j]@,
                ),
    {
        assert(ts[it.index()] == value_tree(value));
        match MemoryKey::decode(value, nested) {
            Ok(key) => keys.push(key),
            Err(_) => return None,
        }
    }
    assert(keys_decoded(ts, nested)->Some_0 =~= keys_view(keys@));
    Some(keys)
}

impl Wire for MemorySchema {
    open spec fn encoded(v: Seq<KeyView>) -> Tree {
        Tree::Record(map!["keys"@ => Tree::List(keys_encoded(v))])
    }

    open spec fn decoded(t: Tree, nested: bool) -> Option<Seq<KeyView>> {
        let keys = t.member("keys"@).items();
        let rest = t.without("keys"@);
        match keys {
            Some(keys) if rest.ends() => keys_decoded(keys, nested),
            _ => None,
        }
    }

    open spec fn faithful(v: Seq<KeyView>) -> bool {
        true
    }

    proof fn round_trip(v: Seq<KeyView>, nested: bool) {
        assert forall|i: int| 0 <= i < v.len() implies #[trigger] MemoryKey::decoded(
            keys_encoded(v)[i],
            nested,
        ) == Some(v[i]) by {
            MemoryKey::round_trip(v[i], nested);
        }
        assert(keys_decoded(keys_encoded(v), nested)->Some_0 =~= v);
    }

    fn to_value(&self) -> (value: serde_json::Value) {
        let mut values: Vec<serde_json::Value> = Vec::new();
        let n: usize = self.keys.len();
        for i in 0..n
            invariant
                n == self.keys@.len(),
                values@.len() == i,
                forall|j: int|
                    0 <= j < i ==> value_tree(#[trigger] values@[j]) == MemoryKey::encoded(
                        self.keys@[j]@,
                    ),
        {
            values.push(self.keys[i].to_value());
        }
        assert(trees(values@) =~= keys_encoded(self@));
        let mut map = empty_map();
        map_insert(&mut map, "keys", close_value(Node::List(values)));
        close_value(Node::Record(map))
    }

    fn decode(value: serde_json::Value, nested: bool) -> (read: Result<MemorySchema, WireError>) {
        let mut fields = match Fields::open(value) {
            Some(fields) => fields,
            None => return Err(WireError::Mismatch),
        };
        match fields.take("keys").items() {
            Some(values) if fields.ends() => match decode_keys(values, nested) {
                Some(keys) => Ok(MemorySchema { keys }),
                None => Err(WireError::Mismatch),
            },
            _ => Err(WireError::Mismatch),
        }
    }
}

/// The text of a schema is read back as it was.
pub proof fn schema_reprints(v: Seq<KeyView>)
    ensures
        reprints(MemorySchema::encoded(v), nesting_limit()),
{
    assert forall|i: int| 0 <= i < v.len() implies reprints(
        #[trigger] keys_encoded(v)[i],
        (nesting_limit() - 2) as nat,
    ) by {
        reveal_with_fuel(reprints, 2);
    }
    reveal_with_fuel(reprints, 2);
}

} // verus!
