use motosan_agent_primitives::message::ContentBlock;
use motosan_agent_primitives::tool::{ToolAnnotations, ToolCall, ToolResult};
use motosan_agent_primitives::{Wire, WireError};
use serde_json::Value;

fn parsed(text: &str) -> Result<serde_json::Value, WireError> {
    serde_json::from_str(text).map_err(|_| WireError::Malformed)
}

/// The text of a value's document, and the value that a text's document holds.
trait Text: Wire {
    fn to_json(&self) -> String {
        self.to_value().to_string()
    }

    fn from_json(text: &str) -> Result<Self, WireError> {
        Self::from_value(parsed(text)?)
    }
}

impl<T: Wire> Text for T {}

fn document(text: &str) -> serde_json::Value {
    parsed(text).unwrap()
}

fn object(members: Vec<(&str, Value)>) -> Value {
    Value::Object(members.into_iter().map(|(k, v)| (k.to_string(), v)).collect())
}

fn lookup_call() -> ToolCall {
    ToolCall {
        id: "c1".into(),
        name: "lookup".into(),
        input: object(vec![("q", Value::from(1))]),
    }
}

#[test]
fn tool_call_round_trip() {
    let c = lookup_call();
    let s = c.to_json();
    let back = ToolCall::from_json(&s).unwrap();
    assert_eq!(c, back);
}

#[test]
fn tool_result_text_constructor() {
    let r = ToolResult::text("c1", "ok");
    assert!(!r.is_error);
    assert_eq!(r.tool_use_id, "c1");
    match &r.content[0] {
        ContentBlock::Text { text } => assert_eq!(text, "ok"),
        _ => panic!("expected Text"),
    }
}

#[test]
fn tool_result_error_constructor() {
    let r = ToolResult::error("c1", "boom");
    assert!(r.is_error);
}

#[test]
fn tool_tool_result_round_trip() {
    let r = ToolResult::text("c1", "hello");
    let s = r.to_json();
    let back = ToolResult::from_json(&s).unwrap();
    assert_eq!(r, back);
}

#[test]
fn tool_result_error_field_omitted_when_false() {
    let r = ToolResult::text("c1", "ok");
    let s = r.to_json();
    assert!(!s.contains("is_error"));
}

#[test]
fn tool_annotations_round_trip() {
    let a = ToolAnnotations {
        read_only: true,
        destructive: false,
        network_access: true,
        idempotent: true,
    };
    let s = a.to_json();
    let back = ToolAnnotations::from_json(&s).unwrap();
    assert_eq!(a, back);
}

#[test]
fn tool_annotations_default_is_cautious() {
    let a = ToolAnnotations::default();
    assert!(!a.read_only);
    assert!(!a.destructive);
    assert!(!a.network_access);
    assert!(!a.idempotent);
}

#[test]
fn tool_call_document_is_exact() {
    assert_eq!(
        lookup_call().to_value(),
        document("{\"id\":\"c1\",\"input\":{\"q\":1},\"name\":\"lookup\"}")
    );
}

#[test]
fn tool_call_keeps_a_null_input() {
    let c = ToolCall { id: "c".into(), name: "n".into(), input: Value::Null };
    assert_eq!(ToolCall::from_value(c.to_value()), Ok(c.clone()));
    assert_eq!(
        ToolCall::from_json("{\"id\":\"c\",\"name\":\"n\"}"),
        Err(WireError::Mismatch)
    );
}

#[test]
fn tool_call_reads_from_an_array() {
    assert_eq!(ToolCall::from_json("[\"c1\",\"lookup\",{\"q\":1}]"), Ok(lookup_call()));
    assert_eq!(ToolCall::from_json("[\"c1\",\"lookup\"]"), Err(WireError::Mismatch));
    assert_eq!(
        ToolCall::from_json("[\"c1\",\"lookup\",{\"q\":1},0]"),
        Err(WireError::Mismatch)
    );
}

#[test]
fn tool_result_error_constructor_builds_one_text_block() {
    let r = ToolResult::error(String::from("c9"), String::from("boom"));
    assert_eq!(
        r,
        ToolResult {
            tool_use_id: "c9".into(),
            content: vec![ContentBlock::Text { text: "boom".into() }],
            is_error: true,
        }
    );
    assert_eq!(r.to_value()["is_error"], true);
    assert_eq!(r.clone(), r);
}

#[test]
fn tool_result_flag_defaults_to_false() {
    let r = ToolResult::from_json("{\"tool_use_id\":\"c\",\"content\":[]}").unwrap();
    assert!(!r.is_error);
    let r = ToolResult::from_json("[\"c\",[]]").unwrap();
    assert!(!r.is_error);
    assert_eq!(
        ToolResult::from_json("{\"tool_use_id\":\"c\",\"content\":[],\"is_error\":1}"),
        Err(WireError::Mismatch)
    );
}

#[test]
fn tool_use_block_is_a_tagged_call() {
    let call = lookup_call();
    let block = ContentBlock::ToolUse {
        id: call.id.clone(),
        name: call.name.clone(),
        input: call.input.clone(),
    };
    let mut tagged = call.to_value();
    tagged["type"] = Value::from("tool_use");
    assert_eq!(block.to_value(), tagged);
}

#[test]
fn tool_result_block_is_a_tagged_result() {
    for result in [ToolResult::text("c", "ok"), ToolResult::error("c", "no")] {
        let block = ContentBlock::ToolResult {
            tool_use_id: result.tool_use_id.clone(),
            content: result.content.clone(),
            is_error: result.is_error,
        };
        let mut tagged = result.to_value();
        tagged["type"] = Value::from("tool_result");
        assert_eq!(block.to_value(), tagged);
    }
}

#[test]
fn tool_annotations_default_where_left_out() {
    assert_eq!(ToolAnnotations::from_json("{}"), Ok(ToolAnnotations::default()));
    assert_eq!(ToolAnnotations::from_json("[]"), Ok(ToolAnnotations::default()));
    assert_eq!(
        ToolAnnotations::from_json("[false,true]"),
        Ok(ToolAnnotations { destructive: true, ..ToolAnnotations::default() })
    );
    assert_eq!(
        ToolAnnotations::from_json("{\"destructive\":null}"),
        Err(WireError::Mismatch)
    );
}

#[test]
fn unset_flags_are_false() {
    assert!(motosan_agent_primitives::tool::is_false(&false));
    assert!(!motosan_agent_primitives::tool::is_false(&true));
}

#[test]
fn text_and_error_results_differ_in_their_flag() {
    let good = ToolResult::text("c", "t");
    let bad = ToolResult::error("c", "t");
    assert_ne!(good, bad);
    assert_eq!(ToolResult { is_error: true, ..good }, bad);
    assert_eq!(bad.content.len(), 1);
}

#[test]
fn result_without_blocks_is_still_read() {
    let r = ToolResult::from_json("{\"tool_use_id\":\"c\",\"content\":[]}").unwrap();
    assert!(r.content.is_empty());
}
