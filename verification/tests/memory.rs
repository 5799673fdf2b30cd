use motosan_agent_primitives::memory::{MemoryKey, MemoryKind, MemorySchema};
use motosan_agent_primitives::{Wire, WireError};

fn parsed(text: &str) -> Result<serde_json::Value, WireError> {
    serde_json::from_str(text).map_err(|_| WireError::Malformed)
}

/// The text of a value's document, and the value that a text's document holds.
trait Text: Wire {
    fn to_json(&self) -> String {
        self.to_value().to_string()
    }

    fn from_json(text: &str) -> Result<Self, WireError> {
        Self::from_value(parsed(text)?)
    }
}

impl<T: Wire> Text for T {}

fn document(text: &str) -> serde_json::Value {
    parsed(text).unwrap()
}

fn key(name: &str) -> MemoryKey {
    MemoryKey { name: name.into(), kind: MemoryKind::Global, description: "d".into() }
}

#[test]
fn round_trip_schema() {
    let s = MemorySchema { keys: vec![key("k")] };
    let json = s.to_json();
    let back = MemorySchema::from_json(&json).unwrap();
    assert_eq!(s, back);
}

#[test]
fn memory_kind_serializes_snake_case() {
    let s = MemoryKind::PerSession.to_json();
    assert_eq!(s, "\"per_session\"");
    let s = MemoryKind::PerUser.to_json();
    assert_eq!(s, "\"per_user\"");
    let s = MemoryKind::Global.to_json();
    assert_eq!(s, "\"global\"");
}

#[test]
fn empty_schema_round_trip() {
    let s = MemorySchema::default();
    let json = s.to_json();
    let back = MemorySchema::from_json(&json).unwrap();
    assert_eq!(s, back);
}

#[test]
fn schema_with_two_keys_round_trips() {
    let schema = MemorySchema {
        keys: vec![
            MemoryKey {
                name: "user_profile".into(),
                kind: MemoryKind::PerUser,
                description: "Stable user preferences across sessions.".into(),
            },
            MemoryKey {
                name: "scratchpad".into(),
                kind: MemoryKind::PerSession,
                description: "Notes the agent writes during one run.".into(),
            },
        ],
    };
    let back = MemorySchema::from_json(&schema.to_json()).unwrap();
    assert_eq!(back.keys.len(), 2);
    assert_eq!(back, schema);
    assert_eq!(schema.clone(), schema);
}

#[test]
fn schema_documents_are_exact() {
    assert_eq!(MemorySchema::default().to_value(), document("{\"keys\":[]}"));
    assert_eq!(
        MemorySchema { keys: vec![key("k")] }.to_value(),
        document("{\"keys\":[{\"description\":\"d\",\"kind\":\"global\",\"name\":\"k\"}]}")
    );
}

#[test]
fn memory_kind_reads_every_spelling() {
    assert_eq!(MemoryKind::from_json("\"per_user\""), Ok(MemoryKind::PerUser));
    assert_eq!(MemoryKind::from_json("{\"per_user\":null}"), Ok(MemoryKind::PerUser));
    assert_eq!(MemoryKind::from_json("{\"per_user\":{}}"), Err(WireError::Mismatch));
    assert_eq!(MemoryKind::from_json("\"PerUser\""), Err(WireError::Mismatch));
    assert_eq!(MemoryKind::from_json("1"), Err(WireError::Mismatch));
}

#[test]
fn schema_with_one_bad_key_is_refused() {
    assert_eq!(
        MemorySchema::from_json(
            "{\"keys\":[{\"name\":\"a\",\"kind\":\"global\",\"description\":\"\"},{\"name\":\"b\"}]}"
        ),
        Err(WireError::Mismatch)
    );
    assert_eq!(MemorySchema::from_json("{}"), Err(WireError::Mismatch));
    assert_eq!(
        MemorySchema::from_json("[[[\"k\",\"global\",\"d\"]]]"),
        Ok(MemorySchema { keys: vec![key("k")] })
    );
}
