//! Permission policy contracts.
//!
//! A session has exactly one [`PermissionMode`] (its current "trust level",
//! e.g. plan vs accept-edits) and exactly one composed [`PermissionPolicy`]
//! (the rule object the agent loop consults before every tool call).
//!
//! # Composition
//!
//! When several stacked harnesses each declare a policy, the framework
//! composes their answers as **most-restrictive wins**, whatever their order:
//!
//! 1. If any policy returns [`Permission::Deny`], the call is denied.
//! 2. Otherwise, if any policy returns [`Permission::AskUser`], the user
//!    is asked.
//! 3. Otherwise, if all return [`Permission::Allow`], the call is allowed.
//!
//! The agent loop performs the composition. This module defines what it has to
//! come to, as [`composed`], and proves what the rule promises.
//!
//! # Plan mode
//!
//! Plan mode denies only `destructive` tools; read-only and network access are
//! allowed, so that the agent can fetch documentation and browse while
//! planning. This shifts correctness onto the annotations of tool authors: see
//! [`ToolAnnotations`].

use vstd::prelude::*;
use vstd::string::StringExecFns;
use crate::json::{close_value, empty_map, map_insert, nesting_limit, reprints, Node, Tree};
use crate::message::Message;
use crate::tool::ToolAnnotations;
use crate::wire::{text_value, variant_name, Fields, Tag, Wire, WireError};

verus! {

/// Outcome of one permission check.
///
/// The agent loop maps these as follows:
///
/// - [`Allow`](Self::Allow): execute the tool.
/// - [`Deny`](Self::Deny): refuse the call; surface `reason` to the model.
/// - [`AskUser`](Self::AskUser): pause the loop and prompt the human via
///   the configured ask-user channel.
#[derive(Debug, PartialEq, Eq)]
pub enum Permission {
    /// Tool may run.
    Allow,
    /// Tool must not run; `reason` is shown to the model.
    Deny {
        /// Human-readable explanation.
        reason: String,
    },
    /// Human approval required before running.
    AskUser {
        /// Optional prompt text shown to the user.
        prompt: Option<String>,
    },
}

/// What a [`Permission`] says.
pub enum PermissionView {
    Allow,
    Deny { reason: Seq<char> },
    AskUser { prompt: Option<Seq<char>> },
}

impl View for Permission {
    type V = PermissionView;

    open spec fn view(&self) -> PermissionView {
        match self {
            Permission::Allow => PermissionView::Allow,
            Permission::Deny { reason } => PermissionView::Deny { reason: reason@ },
            Permission::AskUser { prompt } => PermissionView::AskUser {
                prompt: match prompt {
                    Some(p) => Some(p@),
                    None => None,
                },
            },
        }
    }
}

impl Clone for Permission {
    fn clone(&self) -> (copy: Permission)
        ensures
            copy@ == self@,
    {
        match self {
            Permission::Allow => Permission::Allow,
            Permission::Deny { reason } => Permission::Deny { reason: reason.clone() },
            Permission::AskUser { prompt } => Permission::AskUser {
                prompt: match prompt {
                    Some(p) => Some(p.clone()),
                    None => None,
                },
            },
        }
    }
}

/// A permission as a line of text.
pub open spec fn permission_text(v: PermissionView) -> Seq<char> {
    match v {
        PermissionView::Allow => "allow"@,
        PermissionView::Deny { reason } => "deny: "@ + reason,
        PermissionView::AskUser { prompt: Some(p) } => "ask_user: "@ + p,
        PermissionView::AskUser { prompt: None } => "ask_user"@,
    }
}

impl Permission {
    /// The permission as a line of text, for logs and UIs.
    pub fn to_text(&self) -> (text: String)
        ensures
            text@ == permission_text(self@),
    {
        match self {
            Permission::Allow => String::from("allow"),
            Permission::Deny { reason } => {
                let mut text = String::from("deny: ");
                text.append(reason);
                text
            },
            Permission::AskUser { prompt } => match prompt {
                Some(p) => {
                    let mut text = String::from("ask_user: ");
                    text.append(p);
                    text
                },
                None => String::from("ask_user"),
            },
        }
    }
}

/// The document that a denial is written as.
pub open spec fn denial_encoded(reason: Seq<char>) -> Tree {
    Tree::Record(map!["kind"@ => Tree::Text("deny"@), "reason"@ => Tree::Text(reason)])
}

impl Wire for Permission {
    open spec fn encoded(v: PermissionView) -> Tree {
        match v {
            PermissionView::Allow => Tree::Record(map!["kind"@ => Tree::Text("allow"@)]),
            PermissionView::Deny { reason } => denial_encoded(reason),
            PermissionView::AskUser { prompt } => Tree::Record(
                map![
                    "kind"@ => Tree::Text("ask_user"@),
                    "prompt"@ => match prompt {
                        Some(p) => Tree::Text(p),
                        None => Tree::Null,
                    },
                ],
            ),
        }
    }

    open spec fn decoded(t: Tree, nested: bool) -> Option<PermissionView> {
        let tag = t.member("kind"@);
        let rest = t.without("kind"@);
        if tag.tags(nested, 0, "allow"@) {
            if rest.ends() {
                Some(PermissionView::Allow)
            } else {
                None
            }
        } else if tag.tags(nested, 1, "deny"@) {
            let reason = rest.member("reason"@).text();
            let rest = rest.without("reason"@);
            match reason {
                Some(reason) if rest.ends() => Some(PermissionView::Deny { reason }),
                _ => None,
            }
        } else if tag.tags(nested, 2, "ask_user"@) {
            let prompt = rest.member("prompt"@).optional_text();
            let rest = rest.without("prompt"@);
            match prompt {
                Some(prompt) if rest.ends() => Some(PermissionView::AskUser { prompt }),
                _ => None,
            }
        } else {
            None
        }
    }

    open spec fn faithful(v: PermissionView) -> bool {
        true
    }

    proof fn round_trip(v: PermissionView, nested: bool) {
        reveal_strlit("kind");
        reveal_strlit("allow");
        reveal_strlit("deny");
        reveal_strlit("ask_user");
        reveal_strlit("reason");
        reveal_strlit("prompt");
        assert("kind"@.len() == 4 && "allow"@.len() == 5 && "deny"@.len() == 4);
        assert("ask_user"@.len() == 8 && "reason"@.len() == 6 && "prompt"@.len() == 6);
    }

    fn to_value(&self) -> (value: serde_json::Value) {
        let mut map = empty_map();
        match self {
            Permission::Allow => {
                map_insert(&mut map, "kind", text_value("allow"));
            },
            Permission::Deny { reason } => {
                map_insert(&mut map, "kind", text_value("deny"));
                map_insert(&mut map, "reason", text_value(reason));
            },
            Permission::AskUser { prompt } => {
                map_insert(&mut map, "kind", text_value("ask_user"));
                map_insert(
                    &mut map,
                    "prompt",
                    match prompt {
                        Some(p) => text_value(p),
                        None => close_value(Node::Null),
                    },
                );
            },
        }
        close_value(Node::Record(map))
    }

    fn decode(value: serde_json::Value, nested: bool) -> (read: Result<Permission, WireError>) {
        let mut fields = match Fields::open(value) {
            Some(fields) => fields,
            None => return Err(WireError::Mismatch),
        };
        let tag = match Tag::read(fields.take("kind"), nested) {
            Some(tag) => tag,
            None => return Err(WireError::Mismatch),
        };
        if tag.is(0, "allow") {
            if fields.ends() {
                Ok(Permission::Allow)
            } else {
                Err(WireError::Mismatch)
            }
        } else if tag.is(1, "deny") {
            match fields.take("reason").text() {
                Some(reason) if fields.ends() => Ok(Permission::Deny { reason }),
                _ => Err(WireError::Mismatch),
            }
        } else if tag.is(2, "ask_user") {
            match fields.take("prompt").optional_text() {
                Some(prompt) if fields.ends() => Ok(Permission::AskUser { prompt }),
                _ => Err(WireError::Mismatch),
            }
        } else {
            Err(WireError::Mismatch)
        }
    }
}

/// Current trust mode of the session.
///
/// Changes only on explicit user action (slash command, UI toggle). The
/// agent loop reads this on every tool dispatch.
#[derive(Debug, Clone, Copy, PartialEq, Eq, Hash, Structural)]
pub enum PermissionMode {
    /// "Read-only sandbox while drafting a plan."
    ///
    /// Denies tools whose
    /// [`ToolAnnotations::destructive`](crate::tool::ToolAnnotations::destructive)
    /// flag is `true`. Tools with `destructive: false` are allowed even
    /// when `network_access: true`: plan mode deliberately permits
    /// documentation fetches and HTTP `GET`, and does **not** infer
    /// destructiveness from `network_access`. Where the destructive flag of a
    /// tool is wrong, plan mode is unsafe.
    Plan,
    /// User must approve every non-read-only tool individually.
    AcceptEdits,
    /// Anything goes (interactive shells, free-running agents). Use with
    /// caution; the policy is bypassed except for sandbox-level limits.
    BypassPermissions,
}

impl View for PermissionMode {
    type V = PermissionMode;

    open spec fn view(&self) -> PermissionMode {
        *self
    }
}

/// The name of a mode on the wire.
pub open spec fn mode_name(mode: PermissionMode) -> Seq<char> {
    match mode {
        PermissionMode::Plan => "plan"@,
        PermissionMode::AcceptEdits => "accept_edits"@,
        PermissionMode::BypassPermissions => "bypass_permissions"@,
    }
}

impl Wire for PermissionMode {
    open spec fn encoded(v: PermissionMode) -> Tree {
        Tree::Text(mode_name(v))
    }

    open spec fn decoded(t: Tree, nested: bool) -> Option<PermissionMode> {
        if t.names(nested, "plan"@) {
            Some(PermissionMode::Plan)
        } else if t.names(nested, "accept_edits"@) {
            Some(PermissionMode::AcceptEdits)
        } else if t.names(nested, "bypass_permissions"@) {
            Some(PermissionMode::BypassPermissions)
        } else {
            None
        }
    }

    open spec fn faithful(v: PermissionMode) -> bool {
        true
    }

    proof fn round_trip(v: PermissionMode, nested: bool) {
        reveal_strlit("plan");
        reveal_strlit("accept_edits");
        reveal_strlit("bypass_permissions");
        assert("plan"@.len() == 4 && "accept_edits"@.len() == 12);
        assert("bypass_permissions"@.len() == 18);
    }

    fn to_value(&self) -> (value: serde_json::Value) {
        match self {
            PermissionMode::Plan => text_value("plan"),
            PermissionMode::AcceptEdits => text_value("accept_edits"),
            PermissionMode::BypassPermissions => text_value("bypass_permissions"),
        }
    }

    fn decode(value: serde_json::Value, nested: bool) -> (read: Result<PermissionMode, WireError>) {
        match variant_name(value, nested) {
            Some(name) => if name == String::from("plan") {
                Ok(PermissionMode::Plan)
            } else if name == String::from("accept_edits") {
                Ok(PermissionMode::AcceptEdits)
            } else if name == String::from("bypass_permissions") {
                Ok(PermissionMode::BypassPermissions)
            } else {
                Err(WireError::Mismatch)
            },
            None => Err(WireError::Mismatch),
        }
    }
}

/// Inputs to one [`PermissionPolicy::check`] call.
///
/// Carries everything a policy needs to make its decision without looking
/// anything up. The policy reads these fields, returns a [`Permission`], and is
/// done.
#[derive(Debug)]
pub struct PermissionContext<'a> {
    /// Current session id.
    pub session_id: &'a str,
    /// Provider-assigned id for the tool call being checked.
    pub tool_use_id: &'a str,
    /// Name of the tool being invoked.
    pub tool_name: &'a str,
    /// JSON arguments that will be passed to the tool.
    pub tool_input: &'a serde_json::Value,
    /// Annotations declared by the tool.
    pub annotations: &'a ToolAnnotations,
    /// Current session trust mode.
    pub mode: PermissionMode,
    /// Recent conversation history the policy may inspect when rendering an
    /// approval prompt or deciding whether the call is contextually
    /// reasonable. The framework chooses the window size; an empty slice is a
    /// normal case (cold start, no history yet).
    pub recent_messages: &'a [Message],
}

impl<'a> Clone for PermissionContext<'a> {
    fn clone(&self) -> (copy: PermissionContext<'a>)
        ensures
            copy == *self,
    {
        PermissionContext {
            session_id: self.session_id,
            tool_use_id: self.tool_use_id,
            tool_name: self.tool_name,
            tool_input: self.tool_input,
            annotations: self.annotations,
            mode: self.mode,
            recent_messages: self.recent_messages,
        }
    }
}

/// A pluggable rule object that decides whether a tool call may run.
///
/// One policy per session. Implementations should be cheap; the agent loop
/// calls `check` before every tool invocation.
///
/// Object-safe: usable as `Arc<dyn PermissionPolicy>`.
pub trait PermissionPolicy: Send + Sync {
    /// Decide whether the tool call described by `ctx` may run.
    fn check(&self, ctx: &PermissionContext<'_>) -> Permission;
}

/// What becomes of a tool call.
pub enum Verdict {
    Allow,
    AskUser,
    Deny,
}

/// How restrictive a verdict is.
pub open spec fn strictness(v: Verdict) -> nat {
    match v {
        Verdict::Allow => 0,
        Verdict::AskUser => 1,
        Verdict::Deny => 2,
    }
}

/// The verdict of one permission.
pub open spec fn verdict(v: PermissionView) -> Verdict {
    match v {
        PermissionView::Allow => Verdict::Allow,
        PermissionView::AskUser { .. } => Verdict::AskUser,
        PermissionView::Deny { .. } => Verdict::Deny,
    }
}

/// The verdict of several policies together.
pub open spec fn composed(answers: Seq<PermissionView>) -> Verdict {
    if exists|i: int| 0 <= i < answers.len() && #[trigger] answers[i] is Deny {
        Verdict::Deny
    } else if exists|i: int| 0 <= i < answers.len() && #[trigger] answers[i] is AskUser {
        Verdict::AskUser
    } else {
        Verdict::Allow
    }
}

/// The most restrictive answer wins: the composed verdict is at least as
/// strict as every answer, and, where there is an answer, as strict as one of
/// them.
pub proof fn most_restrictive_wins(answers: Seq<PermissionView>)
    ensures
        forall|i: int|
            0 <= i < answers.len() ==> strictness(verdict(#[trigger] answers[i])) <= strictness(
                composed(answers),
            ),
        answers.len() > 0 ==> exists|i: int|
            0 <= i < answers.len() && verdict(#[trigger] answers[i]) == composed(answers),
        answers.len() == 0 ==> composed(answers) == Verdict::Allow,
{
    if answers.len() > 0 {
        if composed(answers) == Verdict::Allow {
            assert(verdict(answers[0]) == composed(answers));
        }
    }
}

/// The order of the answers does not matter.
pub proof fn composition_ignores_order(answers: Seq<PermissionView>, others: Seq<PermissionView>)
    requires
        answers.to_multiset() == others.to_multiset(),
    ensures
        composed(answers) == composed(others),
{
    broadcast use vstd::seq_lib::group_to_multiset_ensures;

    assert forall|i: int| 0 <= i < answers.len() implies others.contains(
        #[trigger] answers[i],
    ) by {
        assert(answers.contains(answers[i]));
        assert(others.to_multiset().count(answers[i]) > 0);
    }
    assert forall|i: int| 0 <= i < others.len() implies answers.contains(#[trigger] others[i]) by {
        assert(others.contains(others[i]));
        assert(answers.to_multiset().count(others[i]) > 0);
    }
}

/// What a mode by itself calls for, of a tool with these annotations.
pub open spec fn mode_verdict(mode: PermissionMode, annotations: ToolAnnotations) -> Verdict {
    match mode {
        PermissionMode::Plan => if annotations.destructive {
            Verdict::Deny
        } else {
            Verdict::Allow
        },
        PermissionMode::AcceptEdits => if annotations.read_only {
            Verdict::Allow
        } else {
            Verdict::AskUser
        },
        PermissionMode::BypassPermissions => Verdict::Allow,
    }
}

/// Plan mode decides by the `destructive` flag alone: what a tool declares of
/// the network, or of anything else, makes no difference.
pub proof fn plan_mode_reads_only_destructive(a: ToolAnnotations, b: ToolAnnotations)
    requires
        a.destructive == b.destructive,
    ensures
        mode_verdict(PermissionMode::Plan, a) == mode_verdict(PermissionMode::Plan, b),
        mode_verdict(PermissionMode::Plan, a) == Verdict::Deny <==> a.destructive,
{
}

/// The text of a permission is read back as it was.
pub proof fn permission_reprints(v: PermissionView)
    ensures
        reprints(Permission::encoded(v), nesting_limit()),
{
    reveal_with_fuel(reprints, 2);
}

} // verus!
