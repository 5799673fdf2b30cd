use motosan_agent_primitives::event::{AgentEvent, SubagentResult};
use motosan_agent_primitives::hook::StopReason;
use motosan_agent_primitives::message::{ContentBlock, Message, MessageId, Role};
use motosan_agent_primitives::tool::{ToolCall, ToolResult};
use motosan_agent_primitives::{Stamp, StampedWire, Timestamp, WireError};
use serde_json::Value;

fn parsed(text: &str) -> Result<serde_json::Value, WireError> {
    serde_json::from_str(text).map_err(|_| WireError::Malformed)
}

/// The same for values that carry ids or times.
trait StampedText: StampedWire {
    fn to_json(&self) -> String {
        self.to_value().to_string()
    }

    fn from_json(text: &str) -> Result<Self, WireError> {
        Self::from_value(parsed(text)?)
    }

    fn from_json_with(text: &str, stamp: Stamp) -> Result<Self, WireError> {
        Self::from_value_with(parsed(text)?, stamp)
    }
}

impl<T: StampedWire> StampedText for T {}

fn document(text: &str) -> serde_json::Value {
    parsed(text).unwrap()
}

fn empty_object() -> Value {
    Value::Object(serde_json::Map::new())
}

fn round_trip(ev: &AgentEvent) -> AgentEvent {
    let s = ev.to_json();
    AgentEvent::from_json(&s).unwrap()
}

fn stamp() -> Stamp {
    Stamp { id: MessageId(7), created_at: Timestamp::from_parts(5, 0).unwrap() }
}

#[test]
fn agent_start_shape() {
    let ev = AgentEvent::AgentStart { session_id: "s".into() };
    let v = ev.to_value();
    assert_eq!(v["event"], "agent_start");
    assert_eq!(round_trip(&ev), ev);
}

#[test]
fn agent_stop_shape() {
    let ev = AgentEvent::AgentStop { session_id: "s".into(), reason: StopReason::Completed };
    let v = ev.to_value();
    assert_eq!(v["event"], "agent_stop");
    assert_eq!(round_trip(&ev), ev);
}

#[test]
fn message_delta_shape() {
    let ev = AgentEvent::MessageDelta {
        session_id: "s".into(),
        message_id: MessageId::new(),
        text: "Hel".into(),
    };
    let v = ev.to_value();
    assert_eq!(v["event"], "message_delta");
    assert_eq!(v["text"], "Hel");
    assert_eq!(round_trip(&ev), ev);
}

#[test]
fn message_start_and_end_shape() {
    let mid = MessageId::new();
    let start = AgentEvent::MessageStart {
        session_id: "s".into(),
        message_id: mid,
        role: Role::Assistant,
    };
    assert_eq!(start.to_value()["event"], "message_start");
    let end = AgentEvent::MessageEnd {
        session_id: "s".into(),
        message: Message {
            id: mid,
            role: Role::Assistant,
            content: vec![ContentBlock::Text { text: "hi".into() }],
            created_at: Timestamp::now(),
        },
    };
    assert_eq!(end.to_value()["event"], "message_end");
    assert_eq!(round_trip(&start), start);
    assert_eq!(round_trip(&end), end);
}

#[test]
fn tool_call_events_shape() {
    let call = ToolCall { id: "c1".into(), name: "x".into(), input: empty_object() };
    let start = AgentEvent::ToolCallStart { session_id: "s".into(), tool_call: call.clone() };
    let end = AgentEvent::ToolCallEnd {
        session_id: "s".into(),
        tool_result: ToolResult::text("c1", "ok"),
    };
    assert_eq!(start.to_value()["event"], "tool_call_start");
    assert_eq!(end.to_value()["event"], "tool_call_end");
    assert_eq!(round_trip(&start), start);
    assert_eq!(round_trip(&end), end);
}

#[test]
fn subagent_result_shape() {
    let ev = AgentEvent::SubagentResult {
        session_id: "s".into(),
        result: SubagentResult {
            session_id: "sub".into(),
            stop_reason: StopReason::Completed,
            final_message: None,
        },
    };
    assert_eq!(ev.to_value()["event"], "subagent_result");
    assert_eq!(round_trip(&ev), ev);
}

#[test]
fn ask_user_shape() {
    let ev = AgentEvent::AskUser {
        session_id: "s".into(),
        tool_use_id: "c1".into(),
        prompt: "ok?".into(),
    };
    assert_eq!(ev.to_value()["event"], "ask_user");
    assert_eq!(round_trip(&ev), ev);
}

#[test]
fn error_shape() {
    let ev = AgentEvent::Error { session_id: "s".into(), message: "boom".into() };
    assert_eq!(ev.to_value()["event"], "error");
    assert_eq!(round_trip(&ev), ev);
}

#[test]
fn event_line_is_self_contained() {
    let ev = AgentEvent::AgentStop { session_id: "s".into(), reason: StopReason::Completed };
    assert!(ev.to_json().contains("\"event\":\"agent_stop\""));
    assert_eq!(
        ev.to_value(),
        document("{\"event\":\"agent_stop\",\"reason\":{\"kind\":\"completed\"},\"session_id\":\"s\"}")
    );
}

#[test]
fn final_message_is_written_where_there_is_one() {
    let without = SubagentResult {
        session_id: "sub".into(),
        stop_reason: StopReason::UserCancelled,
        final_message: None,
    };
    assert_eq!(
        without.to_value(),
        document("{\"session_id\":\"sub\",\"stop_reason\":{\"kind\":\"user_cancelled\"}}")
    );
    let with = SubagentResult {
        final_message: Some(Message::text(Role::Assistant, "done")),
        ..without.clone()
    };
    assert!(with.to_json().contains("\"final_message\":{"));
    for result in [without, with] {
        assert_eq!(SubagentResult::from_json(&result.to_json()), Ok(result.clone()));
        assert_eq!(SubagentResult::from_value(result.to_value()), Ok(result));
    }
}

#[test]
fn final_message_may_be_null_or_left_out() {
    let expected = SubagentResult {
        session_id: "sub".into(),
        stop_reason: StopReason::Completed,
        final_message: None,
    };
    for text in [
        "{\"session_id\":\"sub\",\"stop_reason\":{\"kind\":\"completed\"}}",
        "{\"session_id\":\"sub\",\"stop_reason\":{\"kind\":\"completed\"},\"final_message\":null}",
        "[\"sub\",[\"completed\"]]",
        "[\"sub\",[\"completed\"],null]",
    ] {
        assert_eq!(SubagentResult::from_json(text), Ok(expected.clone()), "{text}");
    }
    assert_eq!(
        SubagentResult::from_json(
            "{\"session_id\":\"sub\",\"stop_reason\":{\"kind\":\"completed\"},\"final_message\":{}}"
        ),
        Err(WireError::Mismatch)
    );
    assert_eq!(
        SubagentResult::from_json("{\"session_id\":\"sub\",\"stop_reason\":{\"kind\":0}}"),
        Err(WireError::Mismatch)
    );
}

#[test]
fn events_fill_the_gaps_of_their_message() {
    let ev = AgentEvent::from_json_with(
        "{\"event\":\"message_end\",\"session_id\":\"s\",\"message\":{\"role\":\"user\",\"content\":[]}}",
        stamp(),
    )
    .unwrap();
    let message = Message {
        id: MessageId(7),
        role: Role::User,
        content: vec![],
        created_at: stamp().created_at,
    };
    assert_eq!(ev, AgentEvent::MessageEnd { session_id: "s".into(), message: message.clone() });
    let ev = AgentEvent::from_json_with(
        "{\"event\":\"subagent_result\",\"session_id\":\"s\",\"result\":{\"session_id\":\"t\",\"stop_reason\":{\"kind\":\"completed\"},\"final_message\":{\"role\":\"user\",\"content\":[]}}}",
        stamp(),
    )
    .unwrap();
    assert_eq!(
        ev,
        AgentEvent::SubagentResult {
            session_id: "s".into(),
            result: SubagentResult {
                session_id: "t".into(),
                stop_reason: StopReason::Completed,
                final_message: Some(message),
            },
        }
    );
}

#[test]
fn values_inside_an_event_read_every_spelling() {
    assert_eq!(
        AgentEvent::from_json(
            "{\"event\":\"agent_stop\",\"session_id\":\"s\",\"reason\":{\"kind\":3}}"
        ),
        Ok(AgentEvent::AgentStop {
            session_id: "s".into(),
            reason: StopReason::BudgetExhausted,
        })
    );
    let id = "00000000-0000-0000-0000-000000000001";
    for role in ["\"user\"", "{\"user\":null}", "{\"user\":{}}"] {
        let text = format!(
            "{{\"event\":\"message_start\",\"session_id\":\"s\",\"message_id\":\"{id}\",\"role\":{role}}}"
        );
        assert_eq!(
            AgentEvent::from_json(&text),
            Ok(AgentEvent::MessageStart {
                session_id: "s".into(),
                message_id: MessageId(1),
                role: Role::User,
            }),
            "{text}"
        );
    }
    assert_eq!(
        AgentEvent::from_json("[\"ask_user\",\"s\",\"c\",\"p\"]"),
        Ok(AgentEvent::AskUser {
            session_id: "s".into(),
            tool_use_id: "c".into(),
            prompt: "p".into(),
        })
    );
}

#[test]
fn event_refuses_what_it_does_not_know() {
    for text in [
        "{}",
        "{\"event\":\"agent_start\"}",
        "{\"event\":0,\"session_id\":\"s\"}",
        "{\"event\":\"agent_pause\",\"session_id\":\"s\"}",
        "{\"event\":\"agent_stop\",\"session_id\":\"s\"}",
        "{\"event\":\"message_delta\",\"session_id\":\"s\",\"message_id\":\"x\",\"text\":\"t\"}",
        "{\"event\":\"tool_call_end\",\"session_id\":\"s\",\"tool_result\":{}}",
        "[\"agent_start\",\"s\",1]",
    ] {
        assert_eq!(AgentEvent::from_json(text), Err(WireError::Mismatch), "{text}");
    }
    assert_eq!(AgentEvent::from_json("{\"event\""), Err(WireError::Malformed));
}

#[test]
fn every_event_round_trips_and_copies() {
    let s = || String::from("s");
    let message = Message::text(Role::Assistant, "done");
    let events = vec![
        (AgentEvent::AgentStart { session_id: s() }, "agent_start"),
        (
            AgentEvent::AgentStop {
                session_id: s(),
                reason: StopReason::AbortedByHook { reason: "r".into() },
            },
            "agent_stop",
        ),
        (
            AgentEvent::MessageStart {
                session_id: s(),
                message_id: message.id,
                role: Role::Assistant,
            },
            "message_start",
        ),
        (
            AgentEvent::MessageDelta {
                session_id: s(),
                message_id: message.id,
                text: "do".into(),
            },
            "message_delta",
        ),
        (
            AgentEvent::MessageEnd { session_id: s(), message: message.clone() },
            "message_end",
        ),
        (
            AgentEvent::ToolCallStart {
                session_id: s(),
                tool_call: ToolCall { id: "c".into(), name: "n".into(), input: Value::Null },
            },
            "tool_call_start",
        ),
        (
            AgentEvent::ToolCallEnd {
                session_id: s(),
                tool_result: ToolResult::error("c", "boom"),
            },
            "tool_call_end",
        ),
        (
            AgentEvent::SubagentResult {
                session_id: s(),
                result: SubagentResult {
                    session_id: "t".into(),
                    stop_reason: StopReason::Error { message: "m".into() },
                    final_message: Some(message),
                },
            },
            "subagent_result",
        ),
        (
            AgentEvent::AskUser { session_id: s(), tool_use_id: "c".into(), prompt: "p".into() },
            "ask_user",
        ),
        (AgentEvent::Error { session_id: s(), message: "m".into() }, "error"),
    ];
    for (event, tag) in events {
        assert_eq!(event.to_value()["event"], tag);
        assert_eq!(round_trip(&event), event);
        assert_eq!(AgentEvent::from_value_with(event.to_value(), stamp()), Ok(event.clone()));
    }
}
