//! Approval resolution contract: the answering half of
//! [`Permission::AskUser`](crate::permission::Permission::AskUser).
//!
//! A [`PermissionPolicy`](crate::permission::PermissionPolicy) *decides*
//! (allow, deny, or ask the user). When the composed decision is to ask, the
//! framework consults the session's single approver to *resolve* it into a
//! final [`ReviewDecision`].

use vstd::prelude::*;
use tokio_util::sync::CancellationToken;
use crate::json::{close_value, empty_map, map_insert, nesting_limit, reprints, Node, Tree};
use crate::message::{clone_messages, messages_view, Message};
use crate::permission::{denial_encoded, Permission, PermissionView};
use crate::tool::{ToolAnnotations, ToolCall};
use crate::wire::{text_value, Fields, Tag, Wire, WireError};

verus! {

/// Final verdict produced by an approver for an escalated tool call.
#[derive(Debug, PartialEq, Eq)]
pub enum ReviewDecision {
    /// Proceed with the tool call.
    Approve,
    /// Block the tool call; `reason` is shown to the model (same path as
    /// [`Permission::Deny`]).
    Deny {
        /// Human-readable explanation.
        reason: String,
    },
}

/// What a [`ReviewDecision`] says.
pub enum DecisionView {
    Approve,
    Deny { reason: Seq<char> },
}

impl View for ReviewDecision {
    type V = DecisionView;

    open spec fn view(&self) -> DecisionView {
        match self {
            ReviewDecision::Approve => DecisionView::Approve,
            ReviewDecision::Deny { reason } => DecisionView::Deny { reason: reason@ },
        }
    }
}

impl Clone for ReviewDecision {
    fn clone(&self) -> (copy: ReviewDecision)
        ensures
            copy@ == self@,
    {
        match self {
            ReviewDecision::Approve => ReviewDecision::Approve,
            ReviewDecision::Deny { reason } => ReviewDecision::Deny { reason: reason.clone() },
        }
    }
}

impl Wire for ReviewDecision {
    open spec fn encoded(v: DecisionView) -> Tree {
        match v {
            DecisionView::Approve => Tree::Record(map!["kind"@ => Tree::Text("approve"@)]),
            DecisionView::Deny { reason } => denial_encoded(reason),
        }
    }

    open spec fn decoded(t: Tree, nested: bool) -> Option<DecisionView> {
        let tag = t.member("kind"@);
        let rest = t.without("kind"@);
        if tag.tags(nested, 0, "approve"@) {
            if rest.ends() {
                Some(DecisionView::Approve)
            } else {
                None
            }
        } else if tag.tags(nested, 1, "deny"@) {
            let reason = rest.member("reason"@).text();
            let rest = rest.without("reason"@);
            match reason {
                Some(reason) if rest.ends() => Some(DecisionView::Deny { reason }),
                _ => None,
            }
        } else {
            None
        }
    }

    open spec fn faithful(v: DecisionView) -> bool {
        true
    }

    proof fn round_trip(v: DecisionView, nested: bool) {
        reveal_strlit("kind");
        reveal_strlit("approve");
        reveal_strlit("deny");
        reveal_strlit("reason");
        assert("kind"@.len() == 4);
        assert("approve"@.len() == 7);
        assert("deny"@.len() == 4);
        assert("reason"@.len() == 6);
    }

    fn to_value(&self) -> (value: serde_json::Value) {
        let mut map = empty_map();
        match self {
            ReviewDecision::Approve => {
                map_insert(&mut map, "kind", text_value("approve"));
            },
            ReviewDecision::Deny { reason } => {
                map_insert(&mut map, "kind", text_value("deny"));
                map_insert(&mut map, "reason", text_value(reason));
            },
        }
        close_value(Node::Record(map))
    }

    fn decode(value: serde_json::Value, nested: bool) -> (read: Result<ReviewDecision, WireError>) {
        let mut fields = match Fields::open(value) {
            Some(fields) => fields,
            None => return Err(WireError::Mismatch),
        };
        let tag = match Tag::read(fields.take("kind"), nested) {
            Some(tag) => tag,
            None => return Err(WireError::Mismatch),
        };
        if tag.is(0, "approve") {
            if fields.ends() {
                Ok(ReviewDecision::Approve)
            } else {
                Err(WireError::Mismatch)
            }
        } else if tag.is(1, "deny") {
            match fields.take("reason").text() {
                Some(reason) if fields.ends() => Ok(ReviewDecision::Deny { reason }),
                _ => Err(WireError::Mismatch),
            }
        } else {
            Err(WireError::Mismatch)
        }
    }
}


/// An approver's denial is written as a policy's denial with the same reason.
pub proof fn denials_look_alike(reason: Seq<char>)
    ensures
        ReviewDecision::encoded(DecisionView::Deny { reason }) == Permission::encoded(
            PermissionView::Deny { reason },
        ),
{
}

/// Everything an approver needs to resolve one escalated tool call.
///
/// **Owned, not borrowed** (cf.
/// [`PermissionContext`](crate::permission::PermissionContext)): an approver may
/// queue this, move it to another task or thread, or hold it across a long
/// guardian turn, so it cannot borrow from the engine's transient state.
#[derive(Debug)]
pub struct ApprovalRequest {
    /// The tool call awaiting approval.
    pub tool_call: ToolCall,
    /// Annotations declared by the target tool.
    pub annotations: ToolAnnotations,
    /// Session that raised the escalation (distinct per child agent).
    pub session_id: String,
    /// Snapshot of the engine's recent-message window (may be empty).
    pub recent_messages: Vec<Message>,
    /// Prompt passed straight through from
    /// [`Permission::AskUser`](crate::permission::Permission::AskUser).
    pub prompt: Option<String>,
    /// Observe this; return `Deny` (or abort) when the turn is cancelled.
    pub cancellation_token: CancellationToken,
}

impl Clone for ApprovalRequest {
    /// The copy retains all data, and its token is the same token.
    fn clone(&self) -> (copy: ApprovalRequest)
        ensures
            copy.tool_call@ == self.tool_call@,
            copy.annotations == self.annotations,
            copy.session_id@ == self.session_id@,
            messages_view(copy.recent_messages@) == messages_view(self.recent_messages@),
            copy.prompt is Some <==> self.prompt is Some,
            copy.prompt matches Some(p) ==> p@ == self.prompt->Some_0@,
            copy.cancellation_token == self.cancellation_token,
    {
        ApprovalRequest {
            tool_call: self.tool_call.clone(),
            annotations: self.annotations,
            session_id: self.session_id.clone(),
            recent_messages: clone_messages(&self.recent_messages),
            prompt: match &self.prompt {
                Some(p) => Some(p.clone()),
                None => None,
            },
            cancellation_token: self.cancellation_token.clone(),
        }
    }
}

/// The text of a decision is read back as it was.
pub proof fn decision_reprints(v: DecisionView)
    ensures
        reprints(ReviewDecision::encoded(v), nesting_limit()),
{
    reveal_with_fuel(reprints, 2);
}

} // verus!
