use motosan_agent_primitives::message::{Message, Role};
use motosan_agent_primitives::permission::{
    Permission, PermissionContext, PermissionMode, PermissionPolicy,
};
use motosan_agent_primitives::tool::ToolAnnotations;
use motosan_agent_primitives::{Wire, WireError};
use serde_json::Value;
use std::sync::Arc;

fn parsed(text: &str) -> Result<serde_json::Value, WireError> {
    serde_json::from_str(text).map_err(|_| WireError::Malformed)
}

/// The text of a value's document, and the value that a text's document holds.
trait Text: Wire {
    fn to_json(&self) -> String {
        self.to_value().to_string()
    }

    fn from_json(text: &str) -> Result<Self, WireError> {
        Self::from_value(parsed(text)?)
    }
}

impl<T: Wire> Text for T {}

fn document(text: &str) -> serde_json::Value {
    parsed(text).unwrap()
}

struct AllowAll;

impl PermissionPolicy for AllowAll {
    fn check(&self, _ctx: &PermissionContext<'_>) -> Permission {
        Permission::Allow
    }
}

struct DenyDestructive;

impl PermissionPolicy for DenyDestructive {
    fn check(&self, ctx: &PermissionContext<'_>) -> Permission {
        if ctx.annotations.destructive {
            Permission::Deny { reason: "destructive tools blocked".into() }
        } else {
            Permission::Allow
        }
    }
}

struct InspectsHistory;

impl PermissionPolicy for InspectsHistory {
    fn check(&self, ctx: &PermissionContext<'_>) -> Permission {
        if ctx.recent_messages.is_empty() {
            Permission::AskUser { prompt: None }
        } else {
            Permission::Allow
        }
    }
}

fn ctx<'a>(
    annotations: &'a ToolAnnotations,
    input: &'a Value,
    mode: PermissionMode,
) -> PermissionContext<'a> {
    PermissionContext {
        session_id: "s",
        tool_use_id: "t",
        tool_name: "n",
        tool_input: input,
        annotations,
        mode,
        recent_messages: &[],
    }
}

fn empty_object() -> Value {
    Value::Object(serde_json::Map::new())
}

#[test]
fn allow_all_returns_allow() {
    let p: Arc<dyn PermissionPolicy> = Arc::new(AllowAll);
    let ann = ToolAnnotations::default();
    let inp = empty_object();
    let c = ctx(&ann, &inp, PermissionMode::Plan);
    assert_eq!(p.check(&c), Permission::Allow);
}

#[test]
fn deny_destructive_blocks() {
    let p: Arc<dyn PermissionPolicy> = Arc::new(DenyDestructive);
    let ann = ToolAnnotations { destructive: true, ..Default::default() };
    let inp = empty_object();
    let c = ctx(&ann, &inp, PermissionMode::Plan);
    match p.check(&c) {
        Permission::Deny { .. } => {}
        other => panic!("expected Deny, got {other:?}"),
    }
}

#[test]
fn ask_user_round_trip() {
    let p = Permission::AskUser { prompt: Some("ok?".into()) };
    let s = p.to_json();
    let back = Permission::from_json(&s).unwrap();
    assert_eq!(p, back);
}

#[test]
fn permission_modes_serialize_snake_case() {
    let modes = [
        PermissionMode::Plan,
        PermissionMode::AcceptEdits,
        PermissionMode::BypassPermissions,
    ];
    for m in modes {
        let s = m.to_json();
        let back = PermissionMode::from_json(&s).unwrap();
        assert_eq!(m, back);
    }
}

#[test]
fn permission_context_exposes_recent_messages() {
    let ann = ToolAnnotations::default();
    let inp = empty_object();
    let history = vec![
        Message::text(Role::User, "buy 10 AAPL"),
        Message::text(Role::Assistant, "confirming order"),
    ];
    let c = PermissionContext {
        session_id: "s",
        tool_use_id: "t",
        tool_name: "place_order",
        tool_input: &inp,
        annotations: &ann,
        mode: PermissionMode::AcceptEdits,
        recent_messages: &history,
    };
    assert_eq!(c.recent_messages.len(), 2);
    let p: Arc<dyn PermissionPolicy> = Arc::new(InspectsHistory);
    assert_eq!(p.check(&c), Permission::Allow);

    // Empty slice is a valid input (cold start case).
    let empty = PermissionContext {
        session_id: "s",
        tool_use_id: "t",
        tool_name: "place_order",
        tool_input: &inp,
        annotations: &ann,
        mode: PermissionMode::AcceptEdits,
        recent_messages: &[],
    };
    match p.check(&empty) {
        Permission::AskUser { .. } => {}
        other => panic!("expected AskUser on empty history, got {other:?}"),
    }
}

#[test]
fn permission_context_copies_keep_every_field() {
    let ann = ToolAnnotations { idempotent: true, ..Default::default() };
    let inp = Value::from(7);
    let c = ctx(&ann, &inp, PermissionMode::Plan);
    let copy = c.clone();
    assert_eq!(copy.session_id, "s");
    assert_eq!(copy.tool_use_id, "t");
    assert_eq!(copy.tool_name, "n");
    assert_eq!(copy.tool_input, &inp);
    assert_eq!(copy.annotations, &ann);
    assert_eq!(copy.mode, PermissionMode::Plan);
    assert!(copy.recent_messages.is_empty());
}

#[test]
fn permission_renders_as_text() {
    assert_eq!(Permission::Allow.to_text(), "allow");
    assert_eq!(Permission::Deny { reason: "no".into() }.to_text(), "deny: no");
    assert_eq!(Permission::AskUser { prompt: Some("ok?".into()) }.to_text(), "ask_user: ok?");
    assert_eq!(Permission::AskUser { prompt: None }.to_text(), "ask_user");
}

#[test]
fn permission_documents_are_exact() {
    assert_eq!(Permission::Allow.to_value(), document("{\"kind\":\"allow\"}"));
    assert_eq!(
        Permission::Deny { reason: "no".into() }.to_value(),
        document("{\"kind\":\"deny\",\"reason\":\"no\"}")
    );
    assert_eq!(
        Permission::AskUser { prompt: Some("ok?".into()) }.to_value(),
        document("{\"kind\":\"ask_user\",\"prompt\":\"ok?\"}")
    );
    assert_eq!(
        Permission::AskUser { prompt: None }.to_value(),
        document("{\"kind\":\"ask_user\",\"prompt\":null}")
    );
}

#[test]
fn permission_round_trips_every_variant() {
    for p in [
        Permission::Allow,
        Permission::Deny { reason: String::new() },
        Permission::AskUser { prompt: None },
        Permission::AskUser { prompt: Some(String::new()) },
    ] {
        assert_eq!(Permission::from_value(p.to_value()), Ok(p.clone()));
        assert_eq!(Permission::from_json(&p.to_json()), Ok(p));
    }
}

#[test]
fn prompt_may_be_left_out_of_an_object_only() {
    assert_eq!(
        Permission::from_json("{\"kind\":\"ask_user\"}"),
        Ok(Permission::AskUser { prompt: None })
    );
    assert_eq!(Permission::from_json("[\"ask_user\"]"), Err(WireError::Mismatch));
    assert_eq!(
        Permission::from_json("[\"ask_user\",null]"),
        Ok(Permission::AskUser { prompt: None })
    );
    assert_eq!(
        Permission::from_json("{\"kind\":\"ask_user\",\"prompt\":3}"),
        Err(WireError::Mismatch)
    );
}

#[test]
fn unknown_members_are_ignored() {
    assert_eq!(
        Permission::from_json("{\"kind\":\"allow\",\"note\":[1,2]}"),
        Ok(Permission::Allow)
    );
}

#[test]
fn permission_mode_names_are_exact() {
    assert_eq!(PermissionMode::Plan.to_value(), document("\"plan\""));
    assert_eq!(PermissionMode::AcceptEdits.to_value(), document("\"accept_edits\""));
    assert_eq!(PermissionMode::BypassPermissions.to_value(), document("\"bypass_permissions\""));
    assert_eq!(PermissionMode::from_json("\"Plan\""), Err(WireError::Mismatch));
}
