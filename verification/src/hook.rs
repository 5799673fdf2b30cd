//! Hook middleware contract.
//!
//! A [`Hook`] is an observer or rewriter attached to the agent loop's
//! lifecycle. The loop fires one of nine events at each phase; each [`Hook`]
//! gets to inspect, rewrite, skip, or abort.
//!
//! - Hooks **return by value**. To rewrite a tool's input, a hook returns
//!   [`HookResult::Continue`] with `updated_input: Some(value)`. This makes
//!   cancellation safe: a hook killed mid-rewrite simply has its return value
//!   discarded, and there is no half-mutated state.
//! - Every lifecycle context carries a [`CancellationToken`]. Long-running
//!   hooks should observe it and return early.
//! - [`Hook::post_tool_use`] fires on success;
//!   [`Hook::post_tool_use_failure`] is a separate event fired on tool error or
//!   cancellation. Audit hooks usually override both; rewrite hooks usually
//!   only override the first.
//!
//! | Method                          | When                                     |
//! |---------------------------------|------------------------------------------|
//! | [`Hook::session_start`]         | Session begins                           |
//! | [`Hook::session_end`]           | Session ends (clean or aborted)          |
//! | [`Hook::user_prompt_submit`]    | Before sending a user message to the LLM |
//! | [`Hook::pre_tool_use`]          | Before dispatching a tool call           |
//! | [`Hook::post_tool_use`]         | After successful tool call               |
//! | [`Hook::post_tool_use_failure`] | After tool error or cancellation         |
//! | [`Hook::pre_compact`]           | Before transcript compaction             |
//! | [`Hook::stop`]                  | Loop is about to stop                    |
//! | [`Hook::subagent_stop`]         | A spawned subagent stopped               |

use vstd::prelude::*;
use tokio_util::sync::CancellationToken;
use crate::json::{
    close_value, empty_map, map_insert, nesting_limit, reprints, value_tree, Node, Tree,
};
use crate::message::{clone_messages, messages_view, Message};
use crate::tool::{ToolCall, ToolResult};
use crate::wire::{text_value, Fields, Tag, Wire, WireError};

verus! {

/// The cancellation token of `tokio_util`.
#[verifier::external_type_specification]
#[verifier::external_body]
pub struct ExCancellationToken(CancellationToken);

/// `Clone` of `tokio_util::sync::CancellationToken`. Trusted: the copy is the
/// same token, a second handle on one shared state. Each is cancelled whenever
/// the other is.
pub assume_specification[ <CancellationToken as Clone>::clone ](token: &CancellationToken) -> (copy:
    CancellationToken)
    ensures
        copy == *token,
;

/// What a hook returns to the loop.
#[derive(Debug, PartialEq)]
pub enum HookResult {
    /// Proceed with the next hook (or the framework's default behaviour).
    ///
    /// If `updated_input` is `Some(v)`, the next hook or the dispatcher sees
    /// `v` as the tool's input. If `None`, the prior input is preserved.
    /// Observation-only hooks always return
    /// `Continue { updated_input: None }`.
    Continue {
        /// Optional rewritten tool input. Only meaningful for
        /// [`Hook::pre_tool_use`]; ignored by other events.
        updated_input: Option<serde_json::Value>,
    },
    /// Skip the rest of the chain and the default behaviour entirely.
    ///
    /// Use sparingly: `Skip` on [`Hook::pre_tool_use`] means the tool will NOT
    /// run; the framework injects a synthetic [`ToolResult::error`] so that the
    /// model sees the skip.
    Skip {
        /// Diagnostic shown in events and surfaced to the model.
        reason: String,
    },
    /// Abort the entire agent loop.
    ///
    /// Treated as a fatal user-initiated stop; the loop emits
    /// [`StopReason::AbortedByHook`].
    Abort {
        /// Diagnostic shown in events and surfaced to the model.
        reason: String,
    },
}

/// What a [`HookResult`] says.
pub enum HookView {
    Continue { updated_input: Option<Tree> },
    Skip { reason: Seq<char> },
    Abort { reason: Seq<char> },
}

impl View for HookResult {
    type V = HookView;

    open spec fn view(&self) -> HookView {
        match self {
            HookResult::Continue { updated_input } => HookView::Continue {
                updated_input: match updated_input {
                    Some(v) => Some(value_tree(*v)),
                    None => None,
                },
            },
            HookResult::Skip { reason } => HookView::Skip { reason: reason@ },
            HookResult::Abort { reason } => HookView::Abort { reason: reason@ },
        }
    }
}

impl Clone for HookResult {
    fn clone(&self) -> (copy: HookResult)
        ensures
            copy@ == self@,
    {
        match self {
            HookResult::Continue { updated_input } => HookResult::Continue {
                updated_input: match updated_input {
                    Some(v) => Some(v.clone()),
                    None => None,
                },
            },
            HookResult::Skip { reason } => HookResult::Skip { reason: reason.clone() },
            HookResult::Abort { reason } => HookResult::Abort { reason: reason.clone() },
        }
    }
}

impl Default for HookResult {
    fn default() -> (result: HookResult)
        ensures
            result@ == (HookView::Continue { updated_input: None }),
    {
        HookResult::Continue { updated_input: None }
    }
}

impl HookResult {
    /// Continue without rewriting input.
    pub fn cont() -> (result: HookResult)
        ensures
            result@ == (HookView::Continue { updated_input: None }),
    {
        HookResult::default()
    }

    /// Continue with a rewritten input.
    pub fn rewrite(input: serde_json::Value) -> (result: HookResult)
        ensures
            result@ == (HookView::Continue { updated_input: Some(value_tree(input)) }),
    {
        HookResult::Continue { updated_input: Some(input) }
    }
}

impl Wire for HookResult {
    open spec fn encoded(v: HookView) -> Tree {
        match v {
            HookView::Continue { updated_input: Some(input) } => Tree::Record(
                map!["kind"@ => Tree::Text("continue"@), "updated_input"@ => input],
            ),
            HookView::Continue { updated_input: None } => Tree::Record(
                map!["kind"@ => Tree::Text("continue"@)],
            ),
            HookView::Skip { reason } => Tree::Record(
                map!["kind"@ => Tree::Text("skip"@), "reason"@ => Tree::Text(reason)],
            ),
            HookView::Abort { reason } => Tree::Record(
                map!["kind"@ => Tree::Text("abort"@), "reason"@ => Tree::Text(reason)],
            ),
        }
    }

    open spec fn decoded(t: Tree, nested: bool) -> Option<HookView> {
        let tag = t.member("kind"@);
        let rest = t.without("kind"@);
        if tag.tags(nested, 0, "continue"@) {
            let updated_input = rest.member("updated_input"@).omittable();
            let rest = rest.without("updated_input"@);
            match updated_input {
                Some(updated_input) if rest.ends() => Some(HookView::Continue { updated_input }),
                _ => None,
            }
        } else if tag.tags(nested, 1, "skip"@) {
            let reason = rest.member("reason"@).text();
            let rest = rest.without("reason"@);
            match reason {
                Some(reason) if rest.ends() => Some(HookView::Skip { reason }),
                _ => None,
            }
        } else if tag.tags(nested, 2, "abort"@) {
            let reason = rest.member("reason"@).text();
            let rest = rest.without("reason"@);
            match reason {
                Some(reason) if rest.ends() => Some(HookView::Abort { reason }),
                _ => None,
            }
        } else {
            None
        }
    }

    /// All but a rewrite to `null`, which is read as no rewrite: see
    /// [`null_rewrite_reads_as_none`].
    open spec fn faithful(v: HookView) -> bool {
        v != (HookView::Continue { updated_input: Some(Tree::Null) })
    }

    proof fn round_trip(v: HookView, nested: bool) {
        reveal_strlit("kind");
        reveal_strlit("continue");
        reveal_strlit("skip");
        reveal_strlit("abort");
        reveal_strlit("updated_input");
        reveal_strlit("reason");
        assert("kind"@.len() == 4 && "continue"@.len() == 8 && "skip"@.len() == 4);
        assert("abort"@.len() == 5 && "updated_input"@.len() == 13 && "reason"@.len() == 6);
    }

    fn to_value(&self) -> (value: serde_json::Value) {
        let mut map = empty_map();
        match self {
            HookResult::Continue { updated_input } => {
                map_insert(&mut map, "kind", text_value("continue"));
                if let Some(input) = updated_input {
                    map_insert(&mut map, "updated_input", input.clone());
                }
            },
            HookResult::Skip { reason } => {
                map_insert(&mut map, "kind", text_value("skip"));
                map_insert(&mut map, "reason", text_value(reason));
            },
            HookResult::Abort { reason } => {
                map_insert(&mut map, "kind", text_value("abort"));
                map_insert(&mut map, "reason", text_value(reason));
            },
        }
        close_value(Node::Record(map))
    }

    fn decode(value: serde_json::Value, nested: bool) -> (read: Result<HookResult, WireError>) {
        let mut fields = match Fields::open(value) {
            Some(fields) => fields,
            None => return Err(WireError::Mismatch),
        };
        let tag = match Tag::read(fields.take("kind"), nested) {
            Some(tag) => tag,
            None => return Err(WireError::Mismatch),
        };
        if tag.is(0, "continue") {
            match fields.take("updated_input").omittable() {
                Some(updated_input) if fields.ends() => Ok(HookResult::Continue { updated_input }),
                _ => Err(WireError::Mismatch),
            }
        } else if tag.is(1, "skip") {
            match fields.take("reason").text() {
                Some(reason) if fields.ends() => Ok(HookResult::Skip { reason }),
                _ => Err(WireError::Mismatch),
            }
        } else if tag.is(2, "abort") {
            match fields.take("reason").text() {
                Some(reason) if fields.ends() => Ok(HookResult::Abort { reason }),
                _ => Err(WireError::Mismatch),
            }
        } else {
            Err(WireError::Mismatch)
        }
    }
}

/// A rewrite to `null` does not survive the wire: it is read as no rewrite.
pub proof fn null_rewrite_reads_as_none(nested: bool)
    ensures
        HookResult::decoded(
            HookResult::encoded(HookView::Continue { updated_input: Some(Tree::Null) }),
            nested,
        ) == Some(HookView::Continue { updated_input: None }),
{
    reveal_strlit("kind");
    reveal_strlit("updated_input");
    assert("kind"@.len() == 4 && "updated_input"@.len() == 13);
}

/// A rewritten input is written exactly where there is one.
pub proof fn rewrite_written_when_given(updated_input: Option<Tree>)
    ensures
        HookResult::encoded(HookView::Continue { updated_input })->Record_0.contains_key(
            "updated_input"@,
        ) <==> updated_input is Some,
{
    reveal_strlit("kind");
    reveal_strlit("updated_input");
    assert("kind"@.len() == 4 && "updated_input"@.len() == 13);
}

/// Why the agent loop stopped.
///
/// Emitted by the loop when it terminates a session. Hooks observing
/// [`Hook::session_end`] and [`Hook::stop`] may inspect this; they cannot
/// change it.
#[derive(Debug, PartialEq, Eq)]
pub enum StopReason {
    /// Model produced a final answer with no further tool calls.
    Completed,
    /// User cancelled (Ctrl-C, UI stop button, ...).
    UserCancelled,
    /// A hook returned [`HookResult::Abort`].
    AbortedByHook {
        /// Reason carried by the abort.
        reason: String,
    },
    /// Hit the configured max-iterations or max-tokens budget.
    BudgetExhausted,
    /// Unexpected error.
    Error {
        /// Diagnostic message.
        message: String,
    },
}

/// What a [`StopReason`] says.
pub enum StopView {
    Completed,
    UserCancelled,
    AbortedByHook { reason: Seq<char> },
    BudgetExhausted,
    Error { message: Seq<char> },
}

impl View for StopReason {
    type V = StopView;

    open spec fn view(&self) -> StopView {
        match self {
            StopReason::Completed => StopView::Completed,
            StopReason::UserCancelled => StopView::UserCancelled,
            StopReason::AbortedByHook { reason } => StopView::AbortedByHook { reason: reason@ },
            StopReason::BudgetExhausted => StopView::BudgetExhausted,
            StopReason::Error { message } => StopView::Error { message: message@ },
        }
    }
}

impl Clone for StopReason {
    fn clone(&self) -> (copy: StopReason)
        ensures
            copy@ == self@,
    {
        match self {
            StopReason::Completed => StopReason::Completed,
            StopReason::UserCancelled => StopReason::UserCancelled,
            StopReason::AbortedByHook { reason } => StopReason::AbortedByHook {
                reason: reason.clone(),
            },
            StopReason::BudgetExhausted => StopReason::BudgetExhausted,
            StopReason::Error { message } => StopReason::Error { message: message.clone() },
        }
    }
}

impl Wire for StopReason {
    open spec fn encoded(v: StopView) -> Tree {
        match v {
            StopView::Completed => Tree::Record(map!["kind"@ => Tree::Text("completed"@)]),
            StopView::UserCancelled => Tree::Record(map!["kind"@ => Tree::Text("user_cancelled"@)]),
            StopView::AbortedByHook { reason } => Tree::Record(
                map!["kind"@ => Tree::Text("aborted_by_hook"@), "reason"@ => Tree::Text(reason)],
            ),
            StopView::BudgetExhausted => Tree::Record(
                map!["kind"@ => Tree::Text("budget_exhausted"@)],
            ),
            StopView::Error { message } => Tree::Record(
                map!["kind"@ => Tree::Text("error"@), "message"@ => Tree::Text(message)],
            ),
        }
    }

    open spec fn decoded(t: Tree, nested: bool) -> Option<StopView> {
        let tag = t.member("kind"@);
        let rest = t.without("kind"@);
        if tag.tags(nested, 0, "completed"@) {
            if rest.ends() {
                Some(StopView::Completed)
            } else {
                None
            }
        } else if tag.tags(nested, 1, "user_cancelled"@) {
            if rest.ends() {
                Some(StopView::UserCancelled)
            } else {
                None
            }
        } else if tag.tags(nested, 2, "aborted_by_hook"@) {
            let reason = rest.member("reason"@).text();
            let rest = rest.without("reason"@);
            match reason {
                Some(reason) if rest.ends() => Some(StopView::AbortedByHook { reason }),
                _ => None,
            }
        } else if tag.tags(nested, 3, "budget_exhausted"@) {
            if rest.ends() {
                Some(StopView::BudgetExhausted)
            } else {
                None
            }
        } else if tag.tags(nested, 4, "error"@) {
            let message = rest.member("message"@).text();
            let rest = rest.without("message"@);
            match message {
                Some(message) if rest.ends() => Some(StopView::Error { message }),
                _ => None,
            }
        } else {
            None
        }
    }

    open spec fn faithful(v: StopView) -> bool {
        true
    }

    proof fn round_trip(v: StopView, nested: bool) {
        reveal_strlit("kind");
        reveal_strlit("completed");
        reveal_strlit("user_cancelled");
        reveal_strlit("aborted_by_hook");
        reveal_strlit("budget_exhausted");
        reveal_strlit("error");
        reveal_strlit("reason");
        reveal_strlit("message");
        assert("kind"@.len() == 4);
        assert("completed"@.len() == 9);
        assert("user_cancelled"@.len() == 14);
        assert("aborted_by_hook"@.len() == 15);
        assert("budget_exhausted"@.len() == 16);
        assert("error"@.len() == 5);
        assert("reason"@.len() == 6);
        assert("message"@.len() == 7);
    }

    fn to_value(&self) -> (value: serde_json::Value) {
        let mut map = empty_map();
        match self {
            StopReason::Completed => {
                map_insert(&mut map, "kind", text_value("completed"));
            },
            StopReason::UserCancelled => {
                map_insert(&mut map, "kind", text_value("user_cancelled"));
            },
            StopReason::AbortedByHook { reason } => {
                map_insert(&mut map, "kind", text_value("aborted_by_hook"));
                map_insert(&mut map, "reason", text_value(reason));
            },
            StopReason::BudgetExhausted => {
                map_insert(&mut map, "kind", text_value("budget_exhausted"));
            },
            StopReason::Error { message } => {
                map_insert(&mut map, "kind", text_value("error"));
                map_insert(&mut map, "message", text_value(message));
            },
        }
        close_value(Node::Record(map))
    }

    fn decode(value: serde_json::Value, nested: bool) -> (read: Result<StopReason, WireError>) {
        let mut fields = match Fields::open(value) {
            Some(fields) => fields,
            None => return Err(WireError::Mismatch),
        };
        let tag = match Tag::read(fields.take("kind"), nested) {
            Some(tag) => tag,
            None => return Err(WireError::Mismatch),
        };
        if tag.is(0, "completed") {
            if fields.ends() {
                Ok(StopReason::Completed)
            } else {
                Err(WireError::Mismatch)
            }
        } else if tag.is(1, "user_cancelled") {
            if fields.ends() {
                Ok(StopReason::UserCancelled)
            } else {
                Err(WireError::Mismatch)
            }
        } else if tag.is(2, "aborted_by_hook") {
            match fields.take("reason").text() {
                Some(reason) if fields.ends() => Ok(StopReason::AbortedByHook { reason }),
                _ => Err(WireError::Mismatch),
            }
        } else if tag.is(3, "budget_exhausted") {
            if fields.ends() {
                Ok(StopReason::BudgetExhausted)
            } else {
                Err(WireError::Mismatch)
            }
        } else if tag.is(4, "error") {
            match fields.take("message").text() {
                Some(message) if fields.ends() => Ok(StopReason::Error { message }),
                _ => Err(WireError::Mismatch),
            }
        } else {
            Err(WireError::Mismatch)
        }
    }
}


/// Why a tool invocation failed, passed to [`Hook::post_tool_use_failure`].
#[derive(Debug, PartialEq, Eq)]
pub enum ToolFailure {
    /// The tool's own implementation reported an error.
    Error {
        /// Diagnostic message from the tool.
        message: String,
    },
    /// The tool was cancelled mid-execution (session abort, timeout, ...).
    Cancelled,
    /// The tool exceeded the configured timeout budget.
    Timeout,
}

/// What a [`ToolFailure`] says.
pub enum FailureView {
    Error { message: Seq<char> },
    Cancelled,
    Timeout,
}

impl View for ToolFailure {
    type V = FailureView;

    open spec fn view(&self) -> FailureView {
        match self {
            ToolFailure::Error { message } => FailureView::Error { message: message@ },
            ToolFailure::Cancelled => FailureView::Cancelled,
            ToolFailure::Timeout => FailureView::Timeout,
        }
    }
}

impl Clone for ToolFailure {
    fn clone(&self) -> (copy: ToolFailure)
        ensures
            copy@ == self@,
    {
        match self {
            ToolFailure::Error { message } => ToolFailure::Error { message: message.clone() },
            ToolFailure::Cancelled => ToolFailure::Cancelled,
            ToolFailure::Timeout => ToolFailure::Timeout,
        }
    }
}

impl Wire for ToolFailure {
    open spec fn encoded(v: FailureView) -> Tree {
        match v {
            FailureView::Error { message } => Tree::Record(
                map!["kind"@ => Tree::Text("error"@), "message"@ => Tree::Text(message)],
            ),
            FailureView::Cancelled => Tree::Record(map!["kind"@ => Tree::Text("cancelled"@)]),
            FailureView::Timeout => Tree::Record(map!["kind"@ => Tree::Text("timeout"@)]),
        }
    }

    open spec fn decoded(t: Tree, nested: bool) -> Option<FailureView> {
        let tag = t.member("kind"@);
        let rest = t.without("kind"@);
        if tag.tags(nested, 0, "error"@) {
            let message = rest.member("message"@).text();
            let rest = rest.without("message"@);
            match message {
                Some(message) if rest.ends() => Some(FailureView::Error { message }),
                _ => None,
            }
        } else if tag.tags(nested, 1, "cancelled"@) {
            if rest.ends() {
                Some(FailureView::Cancelled)
            } else {
                None
            }
        } else if tag.tags(nested, 2, "timeout"@) {
            if rest.ends() {
                Some(FailureView::Timeout)
            } else {
                None
            }
        } else {
            None
        }
    }

    open spec fn faithful(v: FailureView) -> bool {
        true
    }

    proof fn round_trip(v: FailureView, nested: bool) {
        reveal_strlit("kind");
        reveal_strlit("error");
        reveal_strlit("cancelled");
        reveal_strlit("timeout");
        reveal_strlit("message");
        assert("kind"@.len() == 4);
        assert("error"@.len() == 5);
        assert("cancelled"@.len() == 9);
        assert("timeout"@.len() == 7);
        assert("message"@.len() == 7);
    }

    fn to_value(&self) -> (value: serde_json::Value) {
        let mut map = empty_map();
        match self {
            ToolFailure::Error { message } => {
                map_insert(&mut map, "kind", text_value("error"));
                map_insert(&mut map, "message", text_value(message));
            },
            ToolFailure::Cancelled => {
                map_insert(&mut map, "kind", text_value("cancelled"));
            },
            ToolFailure::Timeout => {
                map_insert(&mut map, "kind", text_value("timeout"));
            },
        }
        close_value(Node::Record(map))
    }

    fn decode(value: serde_json::Value, nested: bool) -> (read: Result<ToolFailure, WireError>) {
        let mut fields = match Fields::open(value) {
            Some(fields) => fields,
            None => return Err(WireError::Mismatch),
        };
        let tag = match Tag::read(fields.take("kind"), nested) {
            Some(tag) => tag,
            None => return Err(WireError::Mismatch),
        };
        if tag.is(0, "error") {
            match fields.take("message").text() {
                Some(message) if fields.ends() => Ok(ToolFailure::Error { message }),
                _ => Err(WireError::Mismatch),
            }
        } else if tag.is(1, "cancelled") {
            if fields.ends() {
                Ok(ToolFailure::Cancelled)
            } else {
                Err(WireError::Mismatch)
            }
        } else if tag.is(2, "timeout") {
            if fields.ends() {
                Ok(ToolFailure::Timeout)
            } else {
                Err(WireError::Mismatch)
            }
        } else {
            Err(WireError::Mismatch)
        }
    }
}


/// Context passed to [`Hook::session_start`].
#[derive(Debug)]
pub struct SessionStartCtx {
    /// Current session id.
    pub session_id: String,
    /// Cancellation token; hooks should observe this.
    pub cancellation_token: CancellationToken,
}

impl Clone for SessionStartCtx {
    fn clone(&self) -> (copy: SessionStartCtx)
        ensures
            copy.session_id@ == self.session_id@,
            copy.cancellation_token == self.cancellation_token,
    {
        SessionStartCtx {
            session_id: self.session_id.clone(),
            cancellation_token: self.cancellation_token.clone(),
        }
    }
}

/// Context passed to [`Hook::session_end`].
#[derive(Debug)]
pub struct SessionEndCtx {
    /// Current session id.
    pub session_id: String,
    /// Why the session ended.
    pub stop_reason: StopReason,
    /// Cancellation token; hooks should observe this.
    pub cancellation_token: CancellationToken,
}

impl Clone for SessionEndCtx {
    fn clone(&self) -> (copy: SessionEndCtx)
        ensures
            copy.session_id@ == self.session_id@,
            copy.stop_reason@ == self.stop_reason@,
            copy.cancellation_token == self.cancellation_token,
    {
        SessionEndCtx {
            session_id: self.session_id.clone(),
            stop_reason: self.stop_reason.clone(),
            cancellation_token: self.cancellation_token.clone(),
        }
    }
}

/// Context passed to [`Hook::user_prompt_submit`].
#[derive(Debug)]
pub struct UserPromptSubmitCtx {
    /// Current session id.
    pub session_id: String,
    /// The user message about to be sent to the LLM.
    pub message: Message,
    /// Cancellation token; hooks should observe this.
    pub cancellation_token: CancellationToken,
}

impl Clone for UserPromptSubmitCtx {
    fn clone(&self) -> (copy: UserPromptSubmitCtx)
        ensures
            copy.session_id@ == self.session_id@,
            copy.message@ == self.message@,
            copy.cancellation_token == self.cancellation_token,
    {
        UserPromptSubmitCtx {
            session_id: self.session_id.clone(),
            message: self.message.clone(),
            cancellation_token: self.cancellation_token.clone(),
        }
    }
}

/// Context passed to [`Hook::pre_tool_use`].
///
/// This is the **only** context whose hook can meaningfully return
/// [`HookResult::Continue`] with `updated_input: Some(..)`. The framework
/// applies that rewrite to the tool's input before dispatch.
#[derive(Debug)]
pub struct PreToolUseCtx {
    /// Current session id.
    pub session_id: String,
    /// The tool call about to be dispatched.
    pub tool_call: ToolCall,
    /// Cancellation token; hooks should observe this.
    pub cancellation_token: CancellationToken,
}

impl Clone for PreToolUseCtx {
    fn clone(&self) -> (copy: PreToolUseCtx)
        ensures
            copy.session_id@ == self.session_id@,
            copy.tool_call@ == self.tool_call@,
            copy.cancellation_token == self.cancellation_token,
    {
        PreToolUseCtx {
            session_id: self.session_id.clone(),
            tool_call: self.tool_call.clone(),
            cancellation_token: self.cancellation_token.clone(),
        }
    }
}

/// Context passed to [`Hook::post_tool_use`] (success path).
#[derive(Debug)]
pub struct PostToolUseCtx {
    /// Current session id.
    pub session_id: String,
    /// The original tool call.
    pub tool_call: ToolCall,
    /// The successful tool result.
    pub tool_result: ToolResult,
    /// Cancellation token; hooks should observe this.
    pub cancellation_token: CancellationToken,
}

impl Clone for PostToolUseCtx {
    fn clone(&self) -> (copy: PostToolUseCtx)
        ensures
            copy.session_id@ == self.session_id@,
            copy.tool_call@ == self.tool_call@,
            copy.tool_result@ == self.tool_result@,
            copy.cancellation_token == self.cancellation_token,
    {
        PostToolUseCtx {
            session_id: self.session_id.clone(),
            tool_call: self.tool_call.clone(),
            tool_result: self.tool_result.clone(),
            cancellation_token: self.cancellation_token.clone(),
        }
    }
}

/// Context passed to [`Hook::post_tool_use_failure`] (error and cancel path).
///
/// Fires whenever a tool dispatch does **not** produce a successful
/// [`ToolResult`]. Audit hooks should override both this and
/// [`Hook::post_tool_use`] to capture every outcome.
#[derive(Debug)]
pub struct PostToolUseFailureCtx {
    /// Current session id.
    pub session_id: String,
    /// The original tool call.
    pub tool_call: ToolCall,
    /// Why the call failed.
    pub failure: ToolFailure,
    /// The final [`ToolResult`] the model will see for this failed call, with
    /// [`ToolResult::is_error`] set to `true` and `content` describing the
    /// failure. Audit hooks can record this directly.
    pub result: ToolResult,
    /// Cancellation token; hooks should observe this.
    pub cancellation_token: CancellationToken,
}

impl Clone for PostToolUseFailureCtx {
    fn clone(&self) -> (copy: PostToolUseFailureCtx)
        ensures
            copy.session_id@ == self.session_id@,
            copy.tool_call@ == self.tool_call@,
            copy.failure@ == self.failure@,
            copy.result@ == self.result@,
            copy.cancellation_token == self.cancellation_token,
    {
        PostToolUseFailureCtx {
            session_id: self.session_id.clone(),
            tool_call: self.tool_call.clone(),
            failure: self.failure.clone(),
            result: self.result.clone(),
            cancellation_token: self.cancellation_token.clone(),
        }
    }
}

/// Context passed to [`Hook::pre_compact`].
#[derive(Debug)]
pub struct PreCompactCtx {
    /// Current session id.
    pub session_id: String,
    /// Messages the loop is about to compact (summarise or drop).
    pub messages: Vec<Message>,
    /// Cancellation token; hooks should observe this.
    pub cancellation_token: CancellationToken,
}

impl Clone for PreCompactCtx {
    fn clone(&self) -> (copy: PreCompactCtx)
        ensures
            copy.session_id@ == self.session_id@,
            messages_view(copy.messages@) == messages_view(self.messages@),
            copy.cancellation_token == self.cancellation_token,
    {
        PreCompactCtx {
            session_id: self.session_id.clone(),
            messages: clone_messages(&self.messages),
            cancellation_token: self.cancellation_token.clone(),
        }
    }
}

/// Context passed to [`Hook::stop`].
#[derive(Debug)]
pub struct StopCtx {
    /// Current session id.
    pub session_id: String,
    /// Why the loop is stopping.
    pub stop_reason: StopReason,
    /// Cancellation token; hooks should observe this.
    pub cancellation_token: CancellationToken,
}

impl Clone for StopCtx {
    fn clone(&self) -> (copy: StopCtx)
        ensures
            copy.session_id@ == self.session_id@,
            copy.stop_reason@ == self.stop_reason@,
            copy.cancellation_token == self.cancellation_token,
    {
        StopCtx {
            session_id: self.session_id.clone(),
            stop_reason: self.stop_reason.clone(),
            cancellation_token: self.cancellation_token.clone(),
        }
    }
}

/// Context passed to [`Hook::subagent_stop`].
#[derive(Debug)]
pub struct SubagentStopCtx {
    /// Parent session id.
    pub session_id: String,
    /// Subagent session id that just stopped.
    pub subagent_session_id: String,
    /// Why the subagent stopped.
    pub stop_reason: StopReason,
    /// Cancellation token; hooks should observe this.
    pub cancellation_token: CancellationToken,
}

impl Clone for SubagentStopCtx {
    fn clone(&self) -> (copy: SubagentStopCtx)
        ensures
            copy.session_id@ == self.session_id@,
            copy.subagent_session_id@ == self.subagent_session_id@,
            copy.stop_reason@ == self.stop_reason@,
            copy.cancellation_token == self.cancellation_token,
    {
        SubagentStopCtx {
            session_id: self.session_id.clone(),
            subagent_session_id: self.subagent_session_id.clone(),
            stop_reason: self.stop_reason.clone(),
            cancellation_token: self.cancellation_token.clone(),
        }
    }
}

/// Middleware attached to the agent loop's lifecycle.
///
/// Object-safe: usable as `Arc<dyn Hook>`. Multiple hooks may be
/// registered per session; the loop fires each event through every hook
/// in registration order until one returns [`HookResult::Skip`] or
/// [`HookResult::Abort`].
///
/// Every method has a default implementation that returns
/// [`HookResult::cont()`]; override only the events you care about.
pub trait Hook: Send + Sync {
    /// Fired once when a session begins.
    fn session_start(&self, _ctx: &SessionStartCtx) -> (result: HookResult)
        default_ensures
            result@ == (HookView::Continue { updated_input: None }),
    {
        HookResult::cont()
    }

    /// Fired once when a session ends, clean or aborted.
    fn session_end(&self, _ctx: &SessionEndCtx) -> (result: HookResult)
        default_ensures
            result@ == (HookView::Continue { updated_input: None }),
    {
        HookResult::cont()
    }

    /// Fired before a user message is sent to the LLM.
    fn user_prompt_submit(&self, _ctx: &UserPromptSubmitCtx) -> (result: HookResult)
        default_ensures
            result@ == (HookView::Continue { updated_input: None }),
    {
        HookResult::cont()
    }

    /// Fired before dispatching a tool call.
    ///
    /// This is the event where rewrite hooks live. Return
    /// [`HookResult::rewrite`] to replace the tool's input.
    fn pre_tool_use(&self, _ctx: &PreToolUseCtx) -> (result: HookResult)
        default_ensures
            result@ == (HookView::Continue { updated_input: None }),
    {
        HookResult::cont()
    }

    /// Fired after a tool call completed **successfully**.
    fn post_tool_use(&self, _ctx: &PostToolUseCtx) -> (result: HookResult)
        default_ensures
            result@ == (HookView::Continue { updated_input: None }),
    {
        HookResult::cont()
    }

    /// Fired after a tool call **failed** (error, cancel, timeout).
    fn post_tool_use_failure(&self, _ctx: &PostToolUseFailureCtx) -> (result: HookResult)
        default_ensures
            result@ == (HookView::Continue { updated_input: None }),
    {
        HookResult::cont()
    }

    /// Fired before transcript compaction.
    fn pre_compact(&self, _ctx: &PreCompactCtx) -> (result: HookResult)
        default_ensures
            result@ == (HookView::Continue { updated_input: None }),
    {
        HookResult::cont()
    }

    /// Fired right before the agent loop stops.
    fn stop(&self, _ctx: &StopCtx) -> (result: HookResult)
        default_ensures
            result@ == (HookView::Continue { updated_input: None }),
    {
        HookResult::cont()
    }

    /// Fired when a spawned subagent stops.
    fn subagent_stop(&self, _ctx: &SubagentStopCtx) -> (result: HookResult)
        default_ensures
            result@ == (HookView::Continue { updated_input: None }),
    {
        HookResult::cont()
    }
}

/// A hook that overrides nothing.
#[derive(Debug, Clone, Copy, PartialEq, Eq)]
pub struct IdleHook;

impl Hook for IdleHook {

}

/// Whatever the contexts, a hook that overrides nothing lets all nine events
/// continue without a rewrite. Of the contexts' tokens nothing is stated: a
/// token is a handle on state that others share and may cancel at any time.
pub proof fn idle_hook_continues(
    hook: IdleHook,
    started: (SessionStartCtx, HookResult),
    ended: (SessionEndCtx, HookResult),
    submitted: (UserPromptSubmitCtx, HookResult),
    called: (PreToolUseCtx, HookResult),
    succeeded: (PostToolUseCtx, HookResult),
    failed: (PostToolUseFailureCtx, HookResult),
    compacted: (PreCompactCtx, HookResult),
    stopped: (StopCtx, HookResult),
    subagent_stopped: (SubagentStopCtx, HookResult),
)
    requires
        call_ensures(IdleHook::session_start, (&hook, &started.0), started.1),
        call_ensures(IdleHook::session_end, (&hook, &ended.0), ended.1),
        call_ensures(IdleHook::user_prompt_submit, (&hook, &submitted.0), submitted.1),
        call_ensures(IdleHook::pre_tool_use, (&hook, &called.0), called.1),
        call_ensures(IdleHook::post_tool_use, (&hook, &succeeded.0), succeeded.1),
        call_ensures(IdleHook::post_tool_use_failure, (&hook, &failed.0), failed.1),
        call_ensures(IdleHook::pre_compact, (&hook, &compacted.0), compacted.1),
        call_ensures(IdleHook::stop, (&hook, &stopped.0), stopped.1),
        call_ensures(IdleHook::subagent_stop, (&hook, &subagent_stopped.0), subagent_stopped.1),
    ensures
        started.1@ == (HookView::Continue { updated_input: None }),
        ended.1@ == (HookView::Continue { updated_input: None }),
        submitted.1@ == (HookView::Continue { updated_input: None }),
        called.1@ == (HookView::Continue { updated_input: None }),
        succeeded.1@ == (HookView::Continue { updated_input: None }),
        failed.1@ == (HookView::Continue { updated_input: None }),
        compacted.1@ == (HookView::Continue { updated_input: None }),
        stopped.1@ == (HookView::Continue { updated_input: None }),
        subagent_stopped.1@ == (HookView::Continue { updated_input: None }),
{
}

/// The text of a hook result is read back as it was, where a rewritten input
/// nests no deeper than the limit less one.
pub proof fn hook_result_reprints(v: HookView)
    requires
        v matches HookView::Continue { updated_input: Some(input) } ==> reprints(
            input,
            (nesting_limit() - 1) as nat,
        ),
    ensures
        reprints(HookResult::encoded(v), nesting_limit()),
{
    reveal_with_fuel(reprints, 2);
}

/// The text of a stop reason is read back as it was.
pub proof fn stop_reason_reprints(v: StopView, levels: nat)
    requires
        levels >= 1,
    ensures
        reprints(StopReason::encoded(v), levels),
{
    reveal_with_fuel(reprints, 2);
}

/// The text of a tool failure is read back as it was.
pub proof fn tool_failure_reprints(v: FailureView)
    ensures
        reprints(ToolFailure::encoded(v), nesting_limit()),
{
    reveal_with_fuel(reprints, 2);
}

} // verus!
