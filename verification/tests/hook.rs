use motosan_agent_primitives::hook::{
    Hook, HookResult, IdleHook, PostToolUseCtx, PostToolUseFailureCtx, PreCompactCtx, PreToolUseCtx,
    SessionEndCtx, SessionStartCtx, StopCtx, StopReason, SubagentStopCtx, ToolFailure,
    UserPromptSubmitCtx,
};
use motosan_agent_primitives::message::{Message, Role};
use motosan_agent_primitives::tool::{ToolCall, ToolResult};
use motosan_agent_primitives::{Wire, WireError};
use serde_json::Value;
use std::sync::atomic::AtomicU32;
use std::sync::Arc;
use tokio_util::sync::CancellationToken;

fn parsed(text: &str) -> Result<serde_json::Value, WireError> {
    serde_json::from_str(text).map_err(|_| WireError::Malformed)
}

/// The text of a value's document, and the value that a text's document holds.
trait Text: Wire {
    fn to_json(&self) -> String {
        self.to_value().to_string()
    }

    fn from_json(text: &str) -> Result<Self, WireError> {
        Self::from_value(parsed(text)?)
    }
}

impl<T: Wire> Text for T {}

fn document(text: &str) -> serde_json::Value {
    parsed(text).unwrap()
}

fn object(members: Vec<(&str, Value)>) -> Value {
    Value::Object(members.into_iter().map(|(k, v)| (k.to_string(), v)).collect())
}

fn tool_call() -> ToolCall {
    ToolCall { id: "c1".into(), name: "x".into(), input: object(vec![]) }
}

/// Logging hook that overrides both outcomes of a tool call.
struct LoggingHook {
    success_count: AtomicU32,
    failure_count: AtomicU32,
}

impl Hook for LoggingHook {
    fn post_tool_use(&self, _ctx: &PostToolUseCtx) -> HookResult {
        self.success_count.fetch_add(1, std::sync::atomic::Ordering::SeqCst);
        HookResult::cont()
    }

    fn post_tool_use_failure(&self, _ctx: &PostToolUseFailureCtx) -> HookResult {
        self.failure_count.fetch_add(1, std::sync::atomic::Ordering::SeqCst);
        HookResult::cont()
    }
}

struct RewriteHook;

impl Hook for RewriteHook {
    fn pre_tool_use(&self, _ctx: &PreToolUseCtx) -> HookResult {
        HookResult::rewrite(object(vec![("rewritten", Value::from(true))]))
    }
}

struct NullHook;

impl Hook for NullHook {}

#[test]
fn logging_hook_counts_both_outcomes() {
    let h = LoggingHook { success_count: AtomicU32::new(0), failure_count: AtomicU32::new(0) };
    let token = CancellationToken::new();
    let ok = PostToolUseCtx {
        session_id: "s".into(),
        tool_call: tool_call(),
        tool_result: ToolResult::text("c1", "ok"),
        cancellation_token: token.clone(),
    };
    let fail = PostToolUseFailureCtx {
        session_id: "s".into(),
        tool_call: tool_call(),
        failure: ToolFailure::Cancelled,
        result: ToolResult::error("c1", "cancelled"),
        cancellation_token: token.clone(),
    };
    h.post_tool_use(&ok);
    h.post_tool_use_failure(&fail);
    assert_eq!(h.success_count.load(std::sync::atomic::Ordering::SeqCst), 1);
    assert_eq!(h.failure_count.load(std::sync::atomic::Ordering::SeqCst), 1);
}

#[test]
fn rewrite_hook_returns_updated_input() {
    let h = RewriteHook;
    let ctx = PreToolUseCtx {
        session_id: "s".into(),
        tool_call: tool_call(),
        cancellation_token: CancellationToken::new(),
    };
    match h.pre_tool_use(&ctx) {
        HookResult::Continue { updated_input: Some(v) } => {
            assert_eq!(v, object(vec![("rewritten", Value::from(true))]))
        }
        other => panic!("expected Continue/updated_input, got {other:?}"),
    }
}

#[test]
fn hook_result_round_trips() {
    for r in [
        HookResult::cont(),
        HookResult::rewrite(object(vec![("k", Value::from(1))])),
        HookResult::Skip { reason: "no".into() },
        HookResult::Abort { reason: "stop".into() },
    ] {
        let s = r.to_json();
        let back = HookResult::from_json(&s).unwrap();
        assert_eq!(r, back);
    }
}

#[test]
fn stop_reason_round_trips() {
    for r in [
        StopReason::Completed,
        StopReason::UserCancelled,
        StopReason::AbortedByHook { reason: "x".into() },
        StopReason::BudgetExhausted,
        StopReason::Error { message: "boom".into() },
    ] {
        let s = r.to_json();
        let back = StopReason::from_json(&s).unwrap();
        assert_eq!(r, back);
    }
}

#[test]
fn defaults_return_continue() {
    let h = NullHook;
    let token = CancellationToken::new();
    assert_eq!(
        h.session_start(&SessionStartCtx {
            session_id: "s".into(),
            cancellation_token: token.clone(),
        }),
        HookResult::cont()
    );
}

#[test]
fn post_tool_use_failure_ctx_exposes_result() {
    let token = CancellationToken::new();
    let res = ToolResult::error("c1", "boom");
    let ctx = PostToolUseFailureCtx {
        session_id: "s".into(),
        tool_call: tool_call(),
        failure: ToolFailure::Error { message: "boom".into() },
        result: res.clone(),
        cancellation_token: token,
    };
    assert_eq!(ctx.result, res);
    assert!(ctx.result.is_error);
    assert_eq!(ctx.result.tool_use_id, "c1");
}

#[test]
fn every_default_continues() {
    let h: Arc<dyn Hook> = Arc::new(NullHook);
    let token = CancellationToken::new();
    let s = || String::from("s");
    let results = vec![
        h.session_start(&SessionStartCtx { session_id: s(), cancellation_token: token.clone() }),
        h.session_end(&SessionEndCtx {
            session_id: s(),
            stop_reason: StopReason::Completed,
            cancellation_token: token.clone(),
        }),
        h.user_prompt_submit(&UserPromptSubmitCtx {
            session_id: s(),
            message: Message::text(Role::User, "hi"),
            cancellation_token: token.clone(),
        }),
        h.pre_tool_use(&PreToolUseCtx {
            session_id: s(),
            tool_call: tool_call(),
            cancellation_token: token.clone(),
        }),
        h.post_tool_use(&PostToolUseCtx {
            session_id: s(),
            tool_call: tool_call(),
            tool_result: ToolResult::text("c1", "ok"),
            cancellation_token: token.clone(),
        }),
        h.post_tool_use_failure(&PostToolUseFailureCtx {
            session_id: s(),
            tool_call: tool_call(),
            failure: ToolFailure::Timeout,
            result: ToolResult::error("c1", "slow"),
            cancellation_token: token.clone(),
        }),
        h.pre_compact(&PreCompactCtx {
            session_id: s(),
            messages: vec![],
            cancellation_token: token.clone(),
        }),
        h.stop(&StopCtx {
            session_id: s(),
            stop_reason: StopReason::Completed,
            cancellation_token: token.clone(),
        }),
        h.subagent_stop(&SubagentStopCtx {
            session_id: s(),
            subagent_session_id: s(),
            stop_reason: StopReason::Completed,
            cancellation_token: token.clone(),
        }),
    ];
    for r in results {
        assert_eq!(r, HookResult::Continue { updated_input: None });
    }
}

#[test]
fn default_result_is_cont() {
    assert_eq!(HookResult::default(), HookResult::cont());
    assert_eq!(HookResult::cont(), HookResult::Continue { updated_input: None });
}

#[test]
fn hook_result_documents_are_exact() {
    assert_eq!(HookResult::cont().to_value(), document("{\"kind\":\"continue\"}"));
    assert_eq!(
        HookResult::rewrite(Value::from(3)).to_value(),
        document("{\"kind\":\"continue\",\"updated_input\":3}")
    );
    assert_eq!(
        HookResult::Skip { reason: "no".into() }.to_value(),
        document("{\"kind\":\"skip\",\"reason\":\"no\"}")
    );
    assert_eq!(
        HookResult::Abort { reason: "no".into() }.to_value(),
        document("{\"kind\":\"abort\",\"reason\":\"no\"}")
    );
}

#[test]
fn null_rewrite_is_read_as_no_rewrite() {
    let r = HookResult::rewrite(Value::Null);
    assert_eq!(r.to_value(), document("{\"kind\":\"continue\",\"updated_input\":null}"));
    assert_eq!(HookResult::from_value(r.to_value()), Ok(HookResult::cont()));
    assert_ne!(r, HookResult::cont());
}

#[test]
fn rewrite_may_be_left_out_of_an_array() {
    assert_eq!(HookResult::from_json("[\"continue\"]"), Ok(HookResult::cont()));
    assert_eq!(
        HookResult::from_json("[\"continue\",5]"),
        Ok(HookResult::rewrite(Value::from(5)))
    );
    assert_eq!(HookResult::from_json("[\"continue\",5,6]"), Err(WireError::Mismatch));
}

#[test]
fn stop_reason_documents_are_exact() {
    assert_eq!(StopReason::Completed.to_value(), document("{\"kind\":\"completed\"}"));
    assert_eq!(StopReason::UserCancelled.to_value(), document("{\"kind\":\"user_cancelled\"}"));
    assert_eq!(
        StopReason::AbortedByHook { reason: "x".into() }.to_value(),
        document("{\"kind\":\"aborted_by_hook\",\"reason\":\"x\"}")
    );
    assert_eq!(StopReason::BudgetExhausted.to_value(), document("{\"kind\":\"budget_exhausted\"}"));
    assert_eq!(
        StopReason::Error { message: "m".into() }.to_value(),
        document("{\"kind\":\"error\",\"message\":\"m\"}")
    );
    assert_eq!(StopReason::from_json("{\"kind\":\"error\"}"), Err(WireError::Mismatch));
}

#[test]
fn tool_failure_round_trips() {
    for (f, s) in [
        (
            ToolFailure::Error { message: "m".into() },
            "{\"kind\":\"error\",\"message\":\"m\"}",
        ),
        (ToolFailure::Cancelled, "{\"kind\":\"cancelled\"}"),
        (ToolFailure::Timeout, "{\"kind\":\"timeout\"}"),
    ] {
        assert_eq!(f.to_value(), document(s));
        assert_eq!(ToolFailure::from_json(s), Ok(f));
    }
}

#[test]
fn context_copies_keep_their_data() {
    let token = CancellationToken::new();
    let compact = PreCompactCtx {
        session_id: "s".into(),
        messages: vec![Message::text(Role::User, "a"), Message::text(Role::Assistant, "b")],
        cancellation_token: token.clone(),
    };
    let copy = compact.clone();
    assert_eq!(copy.session_id, "s");
    assert_eq!(copy.messages, compact.messages);
    let failed = PostToolUseFailureCtx {
        session_id: "s".into(),
        tool_call: tool_call(),
        failure: ToolFailure::Error { message: "boom".into() },
        result: ToolResult::error("c1", "boom"),
        cancellation_token: token.clone(),
    };
    let copy = failed.clone();
    assert_eq!(copy.tool_call, failed.tool_call);
    assert_eq!(copy.failure, failed.failure);
    assert_eq!(copy.result, failed.result);
    token.cancel();
    assert!(copy.cancellation_token.is_cancelled());
}

#[test]
fn idle_hook_overrides_nothing() {
    let token = CancellationToken::new();
    let ctx = StopCtx {
        session_id: "s".into(),
        stop_reason: StopReason::Completed,
        cancellation_token: token.clone(),
    };
    assert_eq!(IdleHook.stop(&ctx), HookResult::cont());
    assert!(!token.is_cancelled());
    token.cancel();
    assert_eq!(IdleHook.stop(&ctx), HookResult::cont());
    assert!(token.is_cancelled());
}

#[test]
fn hook_results_arrive_as_they_were() {
    for r in [HookResult::cont(), HookResult::rewrite(Value::from(1))] {
        assert_eq!(r.relayed(), Ok(r.clone()));
    }
    assert_eq!(HookResult::rewrite(Value::Null).relayed(), Ok(HookResult::cont()));
}
