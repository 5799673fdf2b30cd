use motosan_agent_primitives::approval::{ApprovalRequest, ReviewDecision};
use motosan_agent_primitives::message::{Message, Role};
use motosan_agent_primitives::permission::Permission;
use motosan_agent_primitives::tool::{ToolAnnotations, ToolCall};
use motosan_agent_primitives::{Wire, WireError};
use serde_json::Value;
use tokio_util::sync::CancellationToken;

fn parsed(text: &str) -> Result<serde_json::Value, WireError> {
    serde_json::from_str(text).map_err(|_| WireError::Malformed)
}

/// The text of a value's document, and the value that a text's document holds.
trait Text: Wire {
    fn to_json(&self) -> String {
        self.to_value().to_string()
    }

    fn from_json(text: &str) -> Result<Self, WireError> {
        Self::from_value(parsed(text)?)
    }
}

impl<T: Wire> Text for T {}

fn document(text: &str) -> serde_json::Value {
    parsed(text).unwrap()
}

fn sample_request() -> ApprovalRequest {
    let mut input = serde_json::Map::new();
    input.insert("symbol".into(), Value::from("AAPL"));
    input.insert("qty".into(), Value::from(10));
    ApprovalRequest {
        tool_call: ToolCall {
            id: "call-1".into(),
            name: "place_order".into(),
            input: Value::Object(input),
        },
        annotations: ToolAnnotations { destructive: true, ..Default::default() },
        session_id: "sess-1".into(),
        recent_messages: vec![Message::text(Role::User, "buy 10 AAPL")],
        prompt: Some("Approve buying 10 AAPL?".into()),
        cancellation_token: CancellationToken::new(),
    }
}

fn assert_send_static<T: Send + 'static>() {}

#[test]
fn review_decision_round_trips() {
    for d in [ReviewDecision::Approve, ReviewDecision::Deny { reason: "no".into() }] {
        let s = d.to_json();
        let back = ReviewDecision::from_json(&s).unwrap();
        assert_eq!(d, back);
    }
}

#[test]
fn approval_request_is_cloneable_and_retains_data() {
    let req = sample_request();
    let copy = req.clone();
    assert_eq!(copy.tool_call.name, "place_order");
    assert_eq!(req.recent_messages.len(), 1);
    assert_eq!(req.prompt.as_deref(), Some("Approve buying 10 AAPL?"));
    assert_send_static::<ApprovalRequest>();
}

#[test]
fn cloned_request_equals_the_first_field_by_field() {
    let req = sample_request();
    let copy = req.clone();
    assert_eq!(copy.tool_call, req.tool_call);
    assert_eq!(copy.annotations, req.annotations);
    assert_eq!(copy.session_id, req.session_id);
    assert_eq!(copy.recent_messages, req.recent_messages);
    assert_eq!(copy.prompt, req.prompt);
}

#[test]
fn cloned_request_shares_its_token() {
    let req = sample_request();
    let copy = req.clone();
    assert!(!copy.cancellation_token.is_cancelled());
    req.cancellation_token.cancel();
    assert!(copy.cancellation_token.is_cancelled());
}

#[test]
fn decision_documents_are_exact() {
    assert_eq!(ReviewDecision::Approve.to_value(), document("{\"kind\":\"approve\"}"));
    assert_eq!(
        ReviewDecision::Deny { reason: "no".into() }.to_value(),
        document("{\"kind\":\"deny\",\"reason\":\"no\"}")
    );
}

#[test]
fn decision_denial_is_a_permission_denial() {
    let decision = ReviewDecision::Deny { reason: "no".into() };
    let permission = Permission::from_value(decision.to_value()).unwrap();
    assert_eq!(permission, Permission::Deny { reason: "no".into() });
    assert_eq!(permission.to_value(), decision.to_value());
}

#[test]
fn decision_refuses_what_it_does_not_know() {
    assert_eq!(ReviewDecision::from_json("{\"kind\":\"maybe\"}"), Err(WireError::Mismatch));
    assert_eq!(ReviewDecision::from_json("{\"kind\":\"deny\"}"), Err(WireError::Mismatch));
    assert_eq!(ReviewDecision::from_json("{\"kind\":0}"), Err(WireError::Mismatch));
    assert_eq!(ReviewDecision::from_json("\"approve\""), Err(WireError::Mismatch));
    assert_eq!(ReviewDecision::from_json("{"), Err(WireError::Malformed));
}

#[test]
fn decision_reads_from_an_array() {
    assert_eq!(ReviewDecision::from_json("[\"approve\"]"), Ok(ReviewDecision::Approve));
    assert_eq!(ReviewDecision::from_json("[\"approve\",1]"), Err(WireError::Mismatch));
    assert_eq!(
        ReviewDecision::from_json("[\"deny\",\"x\"]"),
        Ok(ReviewDecision::Deny { reason: "x".into() })
    );
}
