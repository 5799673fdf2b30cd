//! Streaming output events emitted by the agent loop.
//!
//! [`AgentEvent`] is the wire format for "what is the agent doing right
//! now". The agent loop emits a stream of these (over a channel, an SSE
//! pipe, stdout JSONL, ...) and downstream consumers (UIs, logs, evaluators)
//! react to them.
//!
//! Every event carries an `event` tag on the wire, so that consumers can match
//! by string without needing to know every variant.

use vstd::prelude::*;
use crate::clock::{clock_read, TimestampView};
use crate::content::block_fits;
use crate::hook::{stop_reason_reprints, StopReason, StopView};
use crate::json::{
    close_value, empty_map, map_insert, nesting_limit, reprints, value_tree, Node, Tree,
};
use crate::message::{drawn, message_reprints, Message, MessageId, MessageView, Role};
use crate::stamp::{Source, StampView, StampedWire};
use crate::tool::{call_reprints, result_reprints, CallView, ResultView, ToolCall, ToolResult};
use crate::wire::{text_value, Fields, Member, Tag, Wire, WireError};

verus! {

/// Result of a spawned subagent reported back via
/// [`AgentEvent::SubagentResult`].
#[derive(Debug, PartialEq)]
pub struct SubagentResult {
    /// Subagent session id.
    pub session_id: String,
    /// Why the subagent stopped.
    pub stop_reason: StopReason,
    /// Optional final assistant message produced by the subagent.
    pub final_message: Option<Message>,
}

/// What a [`SubagentResult`] says.
pub struct SubagentView {
    pub session_id: Seq<char>,
    pub stop_reason: StopView,
    pub final_message: Option<MessageView>,
}

impl View for SubagentResult {
    type V = SubagentView;

    open spec fn view(&self) -> SubagentView {
        SubagentView {
            session_id: self.session_id@,
            stop_reason: self.stop_reason@,
            final_message: match self.final_message {
                Some(message) => Some(message@),
                None => None,
            },
        }
    }
}

impl Clone for SubagentResult {
    fn clone(&self) -> (copy: SubagentResult)
        ensures
            copy@ == self@,
    {
        SubagentResult {
            session_id: self.session_id.clone(),
            stop_reason: self.stop_reason.clone(),
            final_message: match &self.final_message {
                Some(message) => Some(message.clone()),
                None => None,
            },
        }
    }
}

impl StampedWire for SubagentResult {
    open spec fn encoded(v: SubagentView) -> Tree {
        let entries = map![
            "session_id"@ => Tree::Text(v.session_id),
            "stop_reason"@ => StopReason::encoded(v.stop_reason),
        ];
        Tree::Record(
            match v.final_message {
                Some(message) => entries.insert("final_message"@, Message::encoded(message)),
                None => entries,
            },
        )
    }

    open spec fn decoded(t: Tree, nested: bool, fill: StampView) -> Option<SubagentView> {
        let session_id = t.member("session_id"@).text();
        let rest = t.without("session_id"@);
        let stop_reason = rest.member("stop_reason"@).tree();
        let rest = rest.without("stop_reason"@);
        let final_message = rest.member("final_message"@).omittable();
        let rest = rest.without("final_message"@);
        match (session_id, stop_reason, final_message) {
            (Some(session_id), Some(stop_reason), Some(final_message)) if rest.ends() => {
                match (StopReason::decoded(stop_reason, nested), final_message) {
                    (Some(stop_reason), None) => Some(
                        SubagentView { session_id, stop_reason, final_message: None },
                    ),
                    (Some(stop_reason), Some(message)) => match Message::decoded(
                        message,
                        nested,
                        fill,
                    ) {
                        Some(message) => Some(
                            SubagentView { session_id, stop_reason, final_message: Some(message) },
                        ),
                        None => None,
                    },
                    _ => None,
                }
            },
            _ => None,
        }
    }

    open spec fn faithful(v: SubagentView) -> bool {
        v.final_message matches Some(message) ==> Message::faithful(message)
    }

    fn to_value(&self) -> (value: serde_json::Value) {
        let mut map = empty_map();
        map_insert(&mut map, "session_id", text_value(&self.session_id));
        map_insert(&mut map, "stop_reason", self.stop_reason.to_value());
        if let Some(message) = &self.final_message {
            map_insert(&mut map, "final_message", message.to_value());
        }
        close_value(Node::Record(map))
    }

    fn decode(value: serde_json::Value, nested: bool, source: &Source) -> (read: Result<
        SubagentResult,
        WireError,
    >) {
        proof {
            source.lemma_gives();
            lemma_subagent_members(value_tree(value), nested);
            lemma_subagent_fill(value_tree(value), nested);
        }
        let mut fields = match Fields::open(value) {
            Some(fields) => fields,
            None => return Err(WireError::Mismatch),
        };
        let session_id = fields.take("session_id").text();
        let stop_reason = fields.take("stop_reason").value();
        let final_message = fields.take("final_message").omittable();
        match (session_id, stop_reason, final_message) {
            (Some(session_id), Some(stop_reason), Some(final_message)) if fields.ends() => {
                let stop_reason = match StopReason::decode(stop_reason, nested) {
                    Ok(stop_reason) => stop_reason,
                    Err(e) => return Err(e),
                };
                match final_message {
                    Some(message) => match Message::decode(message, nested, source) {
                        Ok(message) => Ok(
                            SubagentResult {
                                session_id,
                                stop_reason,
                                final_message: Some(message),
                            },
                        ),
                        Err(e) => Err(e),
                    },
                    None => Ok(SubagentResult { session_id, stop_reason, final_message: None }),
                }
            },
            _ => Err(WireError::Mismatch),
        }
    }
}

/// What fills the gaps of a subagent result fills those of its final message.
proof fn lemma_subagent_fill(t: Tree, nested: bool)
    ensures
        ({
            let rest = t.without("session_id"@).without("stop_reason"@);
            let message = rest.member("final_message"@).omittable();
            &&& message matches Some(Some(m)) ==> forall|fill: StampView| #[trigger]
                Message::freshly_filled(m, nested, fill) ==> SubagentResult::freshly_filled(
                    t,
                    nested,
                    fill,
                )
            &&& !(message matches Some(Some(_))) ==> forall|fill: StampView| #[trigger]
                SubagentResult::freshly_filled(t, nested, fill)
            &&& (forall|fill: StampView| #[trigger]
                SubagentResult::decoded(t, nested, fill) is None) ==> forall|fill: StampView|
                #[trigger] SubagentResult::freshly_filled(t, nested, fill)
        }),
{
}

/// The members of a written subagent result are those of its view.
proof fn lemma_subagent_members(t: Tree, nested: bool)
    ensures
        forall|v: SubagentView|
            t == #[trigger] SubagentResult::encoded(v) ==> {
                let rest = t.without("session_id"@);
                let last = rest.without("stop_reason"@);
                &&& t.member("session_id"@) == Member::Given(Tree::Text(v.session_id))
                &&& rest.member("stop_reason"@) == Member::Given(
                    StopReason::encoded(v.stop_reason),
                )
                &&& StopReason::decoded(StopReason::encoded(v.stop_reason), nested) == Some(
                    v.stop_reason,
                )
                &&& last.member("final_message"@) == (match v.final_message {
                    Some(message) => Member::Given(Message::encoded(message)),
                    None => Member::Absent,
                })
                &&& last.without("final_message"@).ends()
            },
{
    reveal_strlit("session_id");
    reveal_strlit("stop_reason");
    reveal_strlit("final_message");
    assert("session_id"@.len() == 10 && "stop_reason"@.len() == 11 && "final_message"@.len() == 13);
    assert forall|v: SubagentView| t == #[trigger] SubagentResult::encoded(v) implies
        StopReason::decoded(StopReason::encoded(v.stop_reason), nested) == Some(v.stop_reason) by {
        StopReason::round_trip(v.stop_reason, nested);
    }
}

/// The final message of a subagent is written exactly where there is one.
pub proof fn final_message_written_when_given(v: SubagentView)
    ensures
        SubagentResult::encoded(v)->Record_0.contains_key("final_message"@) <==> v.final_message
            is Some,
{
    reveal_strlit("session_id");
    reveal_strlit("stop_reason");
    reveal_strlit("final_message");
    assert("session_id"@.len() == 10 && "stop_reason"@.len() == 11 && "final_message"@.len() == 13);
}

/// One unit of streaming output from the agent loop.
///
/// The variants cover the full lifecycle: agent start and stop, message
/// start, delta and end (for token streaming), tool call and result, subagent
/// emission, ask-user prompt, and a generic error.
#[derive(Debug, PartialEq)]
pub enum AgentEvent {
    /// Session started.
    AgentStart {
        /// Session id.
        session_id: String,
    },
    /// Session stopped.
    AgentStop {
        /// Session id.
        session_id: String,
        /// Why the loop stopped.
        reason: StopReason,
    },
    /// A new message is about to be streamed. [`AgentEvent::MessageDelta`]
    /// events with the same `message_id` follow until
    /// [`AgentEvent::MessageEnd`].
    MessageStart {
        /// Session id.
        session_id: String,
        /// Stable id assigned to this message.
        message_id: MessageId,
        /// Author of the message.
        role: Role,
    },
    /// One incremental text chunk for an in-progress message.
    MessageDelta {
        /// Session id.
        session_id: String,
        /// Id of the message this chunk belongs to.
        message_id: MessageId,
        /// Newly appended text.
        text: String,
    },
    /// The message is now complete.
    MessageEnd {
        /// Session id.
        session_id: String,
        /// The fully assembled message.
        message: Message,
    },
    /// The agent has dispatched a tool call.
    ToolCallStart {
        /// Session id.
        session_id: String,
        /// The dispatched call (possibly after hook rewrite).
        tool_call: ToolCall,
    },
    /// A tool call finished and produced a result.
    ToolCallEnd {
        /// Session id.
        session_id: String,
        /// The reply to the matching [`AgentEvent::ToolCallStart`].
        tool_result: ToolResult,
    },
    /// A spawned subagent emitted its final result.
    SubagentResult {
        /// Parent session id.
        session_id: String,
        /// Subagent outcome.
        result: SubagentResult,
    },
    /// The agent is requesting human approval (e.g. from a
    /// [`PermissionPolicy::check`](crate::permission::PermissionPolicy::check)
    /// returning [`Permission::AskUser`](crate::permission::Permission::AskUser)).
    AskUser {
        /// Session id.
        session_id: String,
        /// Provider-assigned id of the tool call awaiting approval.
        tool_use_id: String,
        /// Prompt text to surface to the human.
        prompt: String,
    },
    /// A non-fatal error worth surfacing to consumers; the loop may
    /// continue. Fatal errors come through [`AgentEvent::AgentStop`] with
    /// [`StopReason::Error`].
    Error {
        /// Session id.
        session_id: String,
        /// Diagnostic message.
        message: String,
    },
}

/// What an [`AgentEvent`] says.
pub enum EventView {
    AgentStart { session_id: Seq<char> },
    AgentStop { session_id: Seq<char>, reason: StopView },
    MessageStart { session_id: Seq<char>, message_id: u128, role: Role },
    MessageDelta { session_id: Seq<char>, message_id: u128, text: Seq<char> },
    MessageEnd { session_id: Seq<char>, message: MessageView },
    ToolCallStart { session_id: Seq<char>, tool_call: CallView },
    ToolCallEnd { session_id: Seq<char>, tool_result: ResultView },
    SubagentResult { session_id: Seq<char>, result: SubagentView },
    AskUser { session_id: Seq<char>, tool_use_id: Seq<char>, prompt: Seq<char> },
    Error { session_id: Seq<char>, message: Seq<char> },
}

impl View for AgentEvent {
    type V = EventView;

    open spec fn view(&self) -> EventView {
        match self {
            AgentEvent::AgentStart { session_id } => EventView::AgentStart {
                session_id: session_id@,
            },
            AgentEvent::AgentStop { session_id, reason } => EventView::AgentStop {
                session_id: session_id@,
                reason: reason@,
            },
            AgentEvent::MessageStart { session_id, message_id, role } => EventView::MessageStart {
                session_id: session_id@,
                message_id: message_id@,
                role: role@,
            },
            AgentEvent::MessageDelta { session_id, message_id, text } => EventView::MessageDelta {
                session_id: session_id@,
                message_id: message_id@,
                text: text@,
            },
            AgentEvent::MessageEnd { session_id, message } => EventView::MessageEnd {
                session_id: session_id@,
                message: message@,
            },
            AgentEvent::ToolCallStart { session_id, tool_call } => EventView::ToolCallStart {
                session_id: session_id@,
                tool_call: tool_call@,
            },
            AgentEvent::ToolCallEnd { session_id, tool_result } => EventView::ToolCallEnd {
                session_id: session_id@,
                tool_result: tool_result@,
            },
            AgentEvent::SubagentResult { session_id, result } => EventView::SubagentResult {
                session_id: session_id@,
                result: result@,
            },
            AgentEvent::AskUser { session_id, tool_use_id, prompt } => EventView::AskUser {
                session_id: session_id@,
                tool_use_id: tool_use_id@,
                prompt: prompt@,
            },
            AgentEvent::Error { session_id, message } => EventView::Error {
                session_id: session_id@,
                message: message@,
            },
        }
    }
}

impl Clone for AgentEvent {
    fn clone(&self) -> (copy: AgentEvent)
        ensures
            copy@ == self@,
    {
        match self {
            AgentEvent::AgentStart { session_id } => AgentEvent::AgentStart {
                session_id: session_id.clone(),
            },
            AgentEvent::AgentStop { session_id, reason } => AgentEvent::AgentStop {
                session_id: session_id.clone(),
                reason: reason.clone(),
            },
            AgentEvent::MessageStart { session_id, message_id, role } => AgentEvent::MessageStart {
                session_id: session_id.clone(),
                message_id: *message_id,
                role: *role,
            },
            AgentEvent::MessageDelta { session_id, message_id, text } => AgentEvent::MessageDelta {
                session_id: session_id.clone(),
                message_id: *message_id,
                text: text.clone(),
            },
            AgentEvent::MessageEnd { session_id, message } => AgentEvent::MessageEnd {
                session_id: session_id.clone(),
                message: message.clone(),
            },
            AgentEvent::ToolCallStart { session_id, tool_call } => AgentEvent::ToolCallStart {
                session_id: session_id.clone(),
                tool_call: tool_call.clone(),
            },
            AgentEvent::ToolCallEnd { session_id, tool_result } => AgentEvent::ToolCallEnd {
                session_id: session_id.clone(),
                tool_result: tool_result.clone(),
            },
            AgentEvent::SubagentResult { session_id, result } => AgentEvent::SubagentResult {
                session_id: session_id.clone(),
                result: result.clone(),
            },
            AgentEvent::AskUser { session_id, tool_use_id, prompt } => AgentEvent::AskUser {
                session_id: session_id.clone(),
                tool_use_id: tool_use_id.clone(),
                prompt: prompt.clone(),
            },
            AgentEvent::Error { session_id, message } => AgentEvent::Error {
                session_id: session_id.clone(),
                message: message.clone(),
            },
        }
    }
}

/// The tag of an event.
pub open spec fn event_name(v: EventView) -> Seq<char> {
    match v {
        EventView::AgentStart { .. } => "agent_start"@,
        EventView::AgentStop { .. } => "agent_stop"@,
        EventView::MessageStart { .. } => "message_start"@,
        EventView::MessageDelta { .. } => "message_delta"@,
        EventView::MessageEnd { .. } => "message_end"@,
        EventView::ToolCallStart { .. } => "tool_call_start"@,
        EventView::ToolCallEnd { .. } => "tool_call_end"@,
        EventView::SubagentResult { .. } => "subagent_result"@,
        EventView::AskUser { .. } => "ask_user"@,
        EventView::Error { .. } => "error"@,
    }
}

impl StampedWire for AgentEvent {
    open spec fn encoded(v: EventView) -> Tree {
        match v {
            EventView::AgentStart { session_id } => Tree::Record(
                map![
                    "event"@ => Tree::Text("agent_start"@),
                    "session_id"@ => Tree::Text(session_id),
                ],
            ),
            EventView::AgentStop { session_id, reason } => Tree::Record(
                map![
                    "event"@ => Tree::Text("agent_stop"@),
                    "session_id"@ => Tree::Text(session_id),
                    "reason"@ => StopReason::encoded(reason),
                ],
            ),
            EventView::MessageStart { session_id, message_id, role } => Tree::Record(
                map![
                    "event"@ => Tree::Text("message_start"@),
                    "session_id"@ => Tree::Text(session_id),
                    "message_id"@ => MessageId::encoded(message_id),
                    "role"@ => Role::encoded(role),
                ],
            ),
            EventView::MessageDelta { session_id, message_id, text } => Tree::Record(
                map![
                    "event"@ => Tree::Text("message_delta"@),
                    "session_id"@ => Tree::Text(session_id),
                    "message_id"@ => MessageId::encoded(message_id),
                    "text"@ => Tree::Text(text),
                ],
            ),
            EventView::MessageEnd { session_id, message } => Tree::Record(
                map![
                    "event"@ => Tree::Text("message_end"@),
                    "session_id"@ => Tree::Text(session_id),
                    "message"@ => Message::encoded(message),
                ],
            ),
            EventView::ToolCallStart { session_id, tool_call } => Tree::Record(
                map![
                    "event"@ => Tree::Text("tool_call_start"@),
                    "session_id"@ => Tree::Text(session_id),
                    "tool_call"@ => ToolCall::encoded(tool_call),
                ],
            ),
            EventView::ToolCallEnd { session_id, tool_result } => Tree::Record(
                map![
                    "event"@ => Tree::Text("tool_call_end"@),
                    "session_id"@ => Tree::Text(session_id),
                    "tool_result"@ => ToolResult::encoded(tool_result),
                ],
            ),
            EventView::SubagentResult { session_id, result } => Tree::Record(
                map![
                    "event"@ => Tree::Text("subagent_result"@),
                    "session_id"@ => Tree::Text(session_id),
                    "result"@ => SubagentResult::encoded(result),
                ],
            ),
            EventView::AskUser { session_id, tool_use_id, prompt } => Tree::Record(
                map![
                    "event"@ => Tree::Text("ask_user"@),
                    "session_id"@ => Tree::Text(session_id),
                    "tool_use_id"@ => Tree::Text(tool_use_id),
                    "prompt"@ => Tree::Text(prompt),
                ],
            ),
            EventView::Error { session_id, message } => Tree::Record(
                map![
                    "event"@ => Tree::Text("error"@),
                    "session_id"@ => Tree::Text(session_id),
                    "message"@ => Tree::Text(message),
                ],
            ),
        }
    }

    open spec fn decoded(t: Tree, nested: bool, fill: StampView) -> Option<EventView> {
        let tag = t.member("event"@);
        let rest = t.without("event"@);
        let session_id = rest.member("session_id"@).text();
        let rest = rest.without("session_id"@);
        if tag.tags(nested, 0, "agent_start"@) {
            match session_id {
                Some(session_id) if rest.ends() => Some(
                    EventView::AgentStart { session_id },
                ),
                _ => None,
            }
        } else if tag.tags(nested, 1, "agent_stop"@) {
            let reason = rest.member("reason"@).tree();
            let rest = rest.without("reason"@);
            match (session_id, reason) {
                (Some(session_id), Some(reason)) if rest.ends() => {
                    match StopReason::decoded(reason, true) {
                        Some(reason) => Some(EventView::AgentStop { session_id, reason }),
                        _ => None,
                    }
                },
                _ => None,
            }
        } else if tag.tags(nested, 2, "message_start"@) {
            let message_id = rest.member("message_id"@).tree();
            let rest = rest.without("message_id"@);
            let role = rest.member("role"@).tree();
            let rest = rest.without("role"@);
            match (session_id, message_id, role) {
                (Some(session_id), Some(message_id), Some(role)) if rest.ends() => {
                    match (MessageId::decoded(message_id, true, fill), Role::decoded(role, true)) {
                        (Some(message_id), Some(role)) => Some(
                            EventView::MessageStart { session_id, message_id, role },
                        ),
                        _ => None,
                    }
                },
                _ => None,
            }
        } else if tag.tags(nested, 3, "message_delta"@) {
            let message_id = rest.member("message_id"@).tree();
            let rest = rest.without("message_id"@);
            let text = rest.member("text"@).text();
            let rest = rest.without("text"@);
            match (session_id, message_id, text) {
                (Some(session_id), Some(message_id), Some(text)) if rest.ends() => {
                    match MessageId::decoded(message_id, true, fill) {
                        Some(message_id) => Some(
                            EventView::MessageDelta { session_id, message_id, text },
                        ),
                        _ => None,
                    }
                },
                _ => None,
            }
        } else if tag.tags(nested, 4, "message_end"@) {
            let message = rest.member("message"@).tree();
            let rest = rest.without("message"@);
            match (session_id, message) {
                (Some(session_id), Some(message)) if rest.ends() => {
                    match Message::decoded(message, true, fill) {
                        Some(message) => Some(EventView::MessageEnd { session_id, message }),
                        _ => None,
                    }
                },
                _ => None,
            }
        } else if tag.tags(nested, 5, "tool_call_start"@) {
            let tool_call = rest.member("tool_call"@).tree();
            let rest = rest.without("tool_call"@);
            match (session_id, tool_call) {
                (Some(session_id), Some(tool_call)) if rest.ends() => {
                    match ToolCall::decoded(tool_call, true) {
                        Some(tool_call) => Some(EventView::ToolCallStart { session_id, tool_call }),
                        _ => None,
                    }
                },
                _ => None,
            }
        } else if tag.tags(nested, 6, "tool_call_end"@) {
            let tool_result = rest.member("tool_result"@).tree();
            let rest = rest.without("tool_result"@);
            match (session_id, tool_result) {
                (Some(session_id), Some(tool_result)) if rest.ends() => {
                    match ToolResult::decoded(tool_result, true) {
                        Some(tool_result) => Some(
                            EventView::ToolCallEnd { session_id, tool_result },
                        ),
                        _ => None,
                    }
                },
                _ => None,
            }
        } else if tag.tags(nested, 7, "subagent_result"@) {
            let result = rest.member("result"@).tree();
            let rest = rest.without("result"@);
            match (session_id, result) {
                (Some(session_id), Some(result)) if rest.ends() => {
                    match SubagentResult::decoded(result, true, fill) {
                        Some(result) => Some(EventView::SubagentResult { session_id, result }),
                        _ => None,
                    }
                },
                _ => None,
            }
        } else if tag.tags(nested, 8, "ask_user"@) {
            let tool_use_id = rest.member("tool_use_id"@).text();
            let rest = rest.without("tool_use_id"@);
            let prompt = rest.member("prompt"@).text();
            let rest = rest.without("prompt"@);
            match (session_id, tool_use_id, prompt) {
                (Some(session_id), Some(tool_use_id), Some(prompt)) if rest.ends() => Some(
                    EventView::AskUser { session_id, tool_use_id, prompt },
                ),
                _ => None,
            }
        } else if tag.tags(nested, 9, "error"@) {
            let message = rest.member("message"@).text();
            let rest = rest.without("message"@);
            match (session_id, message) {
                (Some(session_id), Some(message)) if rest.ends() => Some(
                    EventView::Error { session_id, message },
                ),
                _ => None,
            }
        } else {
            None
        }
    }

    open spec fn faithful(v: EventView) -> bool {
        match v {
            EventView::MessageEnd { message, .. } => Message::faithful(message),
            EventView::SubagentResult { result, .. } => SubagentResult::faithful(result),
            _ => true,
        }
    }

    fn to_value(&self) -> (value: serde_json::Value) {
        let mut map = empty_map();
        match self {
            AgentEvent::AgentStart { session_id } => {
                map_insert(&mut map, "event", text_value("agent_start"));
                map_insert(&mut map, "session_id", text_value(session_id));
            },
            AgentEvent::AgentStop { session_id, reason } => {
                map_insert(&mut map, "event", text_value("agent_stop"));
                map_insert(&mut map, "session_id", text_value(session_id));
                map_insert(&mut map, "reason", reason.to_value());
            },
            AgentEvent::MessageStart { session_id, message_id, role } => {
                map_insert(&mut map, "event", text_value("message_start"));
                map_insert(&mut map, "session_id", text_value(session_id));
                map_insert(&mut map, "message_id", message_id.to_value());
                map_insert(&mut map, "role", role.to_value());
            },
            AgentEvent::MessageDelta { session_id, message_id, text } => {
                map_insert(&mut map, "event", text_value("message_delta"));
                map_insert(&mut map, "session_id", text_value(session_id));
                map_insert(&mut map, "message_id", message_id.to_value());
                map_insert(&mut map, "text", text_value(text));
            },
            AgentEvent::MessageEnd { session_id, message } => {
                map_insert(&mut map, "event", text_value("message_end"));
                map_insert(&mut map, "session_id", text_value(session_id));
                map_insert(&mut map, "message", message.to_value());
            },
            AgentEvent::ToolCallStart { session_id, tool_call } => {
                map_insert(&mut map, "event", text_value("tool_call_start"));
                map_insert(&mut map, "session_id", text_value(session_id));
                map_insert(&mut map, "tool_call", tool_call.to_value());
            },
            AgentEvent::ToolCallEnd { session_id, tool_result } => {
                map_insert(&mut map, "event", text_value("tool_call_end"));
                map_insert(&mut map, "session_id", text_value(session_id));
                map_insert(&mut map, "tool_result", tool_result.to_value());
            },
            AgentEvent::SubagentResult { session_id, result } => {
                map_insert(&mut map, "event", text_value("subagent_result"));
                map_insert(&mut map, "session_id", text_value(session_id));
                map_insert(&mut map, "result", result.to_value());
            },
            AgentEvent::AskUser { session_id, tool_use_id, prompt } => {
                map_insert(&mut map, "event", text_value("ask_user"));
                map_insert(&mut map, "session_id", text_value(session_id));
                map_insert(&mut map, "tool_use_id", text_value(tool_use_id));
                map_insert(&mut map, "prompt", text_value(prompt));
            },
            AgentEvent::Error { session_id, message } => {
                map_insert(&mut map, "event", text_value("error"));
                map_insert(&mut map, "session_id", text_value(session_id));
                map_insert(&mut map, "message", text_value(message));
            },
        }
        close_value(Node::Record(map))
    }

    fn decode(value: serde_json::Value, nested: bool, source: &Source) -> (read: Result<
        AgentEvent,
        WireError,
    >) {
        proof {
            source.lemma_gives();
            lemma_event_members(value_tree(value));
            lemma_event_fill(value_tree(value), nested);
            lemma_event_literals();
        }
        let mut fields = match Fields::open(value) {
            Some(fields) => fields,
            None => return Err(WireError::Mismatch),
        };
        let tag = match Tag::read(fields.take("event"), nested) {
            Some(tag) => tag,
            None => return Err(WireError::Mismatch),
        };
        let session_id = fields.take("session_id").text();
        if tag.is(0, "agent_start") {
            match session_id {
                Some(session_id) if fields.ends() => Ok(
                    AgentEvent::AgentStart { session_id },
                ),
                _ => Err(WireError::Mismatch),
            }
        } else if tag.is(1, "agent_stop") {
            let reason = fields.take("reason").value();
            match (session_id, reason) {
                (Some(session_id), Some(reason)) if fields.ends() => {
                    match StopReason::decode(reason, true) {
                        Ok(reason) => Ok(AgentEvent::AgentStop { session_id, reason }),
                        _ => Err(WireError::Mismatch),
                    }
                },
                _ => Err(WireError::Mismatch),
            }
        } else if tag.is(2, "message_start") {
            let message_id = fields.take("message_id").value();
            let role = fields.take("role").value();
            match (session_id, message_id, role) {
                (Some(session_id), Some(message_id), Some(role)) if fields.ends() => {
                    match (MessageId::decode(message_id, true, source), Role::decode(role, true)) {
                        (Ok(message_id), Ok(role)) => Ok(
                            AgentEvent::MessageStart { session_id, message_id, role },
                        ),
                        _ => Err(WireError::Mismatch),
                    }
                },
                _ => Err(WireError::Mismatch),
            }
        } else if tag.is(3, "message_delta") {
            let message_id = fields.take("message_id").value();
            let text = fields.take("text").text();
            match (session_id, message_id, text) {
                (Some(session_id), Some(message_id), Some(text)) if fields.ends() => {
                    match MessageId::decode(message_id, true, source) {
                        Ok(message_id) => Ok(
                            AgentEvent::MessageDelta { session_id, message_id, text },
                        ),
                        _ => Err(WireError::Mismatch),
                    }
                },
                _ => Err(WireError::Mismatch),
            }
        } else if tag.is(4, "message_end") {
            let message = fields.take("message").value();
            match (session_id, message) {
                (Some(session_id), Some(message)) if fields.ends() => {
                    match Message::decode(message, true, source) {
                        Ok(message) => Ok(AgentEvent::MessageEnd { session_id, message }),
                        _ => Err(WireError::Mismatch),
                    }
                },
                _ => Err(WireError::Mismatch),
            }
        } else if tag.is(5, "tool_call_start") {
            let tool_call = fields.take("tool_call").value();
            match (session_id, tool_call) {
                (Some(session_id), Some(tool_call)) if fields.ends() => {
                    match ToolCall::decode(tool_call, true) {
                        Ok(tool_call) => Ok(AgentEvent::ToolCallStart { session_id, tool_call }),
                        _ => Err(WireError::Mismatch),
                    }
                },
                _ => Err(WireError::Mismatch),
            }
        } else if tag.is(6, "tool_call_end") {
            let tool_result = fields.take("tool_result").value();
            match (session_id, tool_result) {
                (Some(session_id), Some(tool_result)) if fields.ends() => {
                    match ToolResult::decode(tool_result, true) {
                        Ok(tool_result) => Ok(AgentEvent::ToolCallEnd { session_id, tool_result }),
                        _ => Err(WireError::Mismatch),
                    }
                },
                _ => Err(WireError::Mismatch),
            }
        } else if tag.is(7, "subagent_result") {
            let result = fields.take("result").value();
            match (session_id, result) {
                (Some(session_id), Some(result)) if fields.ends() => {
                    match SubagentResult::decode(result, true, source) {
                        Ok(result) => Ok(AgentEvent::SubagentResult { session_id, result }),
                        _ => Err(WireError::Mismatch),
                    }
                },
                _ => Err(WireError::Mismatch),
            }
        } else if tag.is(8, "ask_user") {
            let tool_use_id = fields.take("tool_use_id").text();
            let prompt = fields.take("prompt").text();
            match (session_id, tool_use_id, prompt) {
                (Some(session_id), Some(tool_use_id), Some(prompt)) if fields.ends() => Ok(
                    AgentEvent::AskUser { session_id, tool_use_id, prompt },
                ),
                _ => Err(WireError::Mismatch),
            }
        } else if tag.is(9, "error") {
            let message = fields.take("message").text();
            match (session_id, message) {
                (Some(session_id), Some(message)) if fields.ends() => Ok(
                    AgentEvent::Error { session_id, message },
                ),
                _ => Err(WireError::Mismatch),
            }
        } else {
            Err(WireError::Mismatch)
        }
    }
}

/// The session that an event belongs to.
pub open spec fn event_session(v: EventView) -> Seq<char> {
    match v {
        EventView::AgentStart { session_id, .. } => session_id,
        EventView::AgentStop { session_id, .. } => session_id,
        EventView::MessageStart { session_id, .. } => session_id,
        EventView::MessageDelta { session_id, .. } => session_id,
        EventView::MessageEnd { session_id, .. } => session_id,
        EventView::ToolCallStart { session_id, .. } => session_id,
        EventView::ToolCallEnd { session_id, .. } => session_id,
        EventView::SubagentResult { session_id, .. } => session_id,
        EventView::AskUser { session_id, .. } => session_id,
        EventView::Error { session_id, .. } => session_id,
    }
}

/// The members of a written event, beside its tag and its session, are those
/// of its view. Those that carry neither an id nor a time are read back.
spec fn event_members(rest: Tree, v: EventView) -> bool {
    match v {
        EventView::AgentStart { .. } => rest.ends(),
        EventView::AgentStop { reason, .. } => {
            &&& rest.member("reason"@) == Member::Given(StopReason::encoded(reason))
            &&& StopReason::decoded(StopReason::encoded(reason), true) == Some(reason)
            &&& rest.without("reason"@).ends()
        },
        EventView::MessageStart { message_id, role, .. } => {
            &&& rest.member("message_id"@) == Member::Given(MessageId::encoded(message_id))
            &&& rest.without("message_id"@).member("role"@) == Member::Given(Role::encoded(role))
            &&& Role::decoded(Role::encoded(role), true) == Some(role)
            &&& rest.without("message_id"@).without("role"@).ends()
        },
        EventView::MessageDelta { message_id, text, .. } => {
            &&& rest.member("message_id"@) == Member::Given(MessageId::encoded(message_id))
            &&& rest.without("message_id"@).member("text"@) == Member::Given(Tree::Text(text))
            &&& rest.without("message_id"@).without("text"@).ends()
        },
        EventView::MessageEnd { message, .. } => {
            &&& rest.member("message"@) == Member::Given(Message::encoded(message))
            &&& rest.without("message"@).ends()
        },
        EventView::ToolCallStart { tool_call, .. } => {
            &&& rest.member("tool_call"@) == Member::Given(ToolCall::encoded(tool_call))
            &&& ToolCall::decoded(ToolCall::encoded(tool_call), true) == Some(tool_call)
            &&& rest.without("tool_call"@).ends()
        },
        EventView::ToolCallEnd { tool_result, .. } => {
            &&& rest.member("tool_result"@) == Member::Given(ToolResult::encoded(tool_result))
            &&& ToolResult::decoded(ToolResult::encoded(tool_result), true) == Some(tool_result)
            &&& rest.without("tool_result"@).ends()
        },
        EventView::SubagentResult { result, .. } => {
            &&& rest.member("result"@) == Member::Given(SubagentResult::encoded(result))
            &&& rest.without("result"@).ends()
        },
        EventView::AskUser { tool_use_id, prompt, .. } => {
            &&& rest.member("tool_use_id"@) == Member::Given(Tree::Text(tool_use_id))
            &&& rest.without("tool_use_id"@).member("prompt"@) == Member::Given(Tree::Text(prompt))
            &&& rest.without("tool_use_id"@).without("prompt"@).ends()
        },
        EventView::Error { message, .. } => {
            &&& rest.member("message"@) == Member::Given(Tree::Text(message))
            &&& rest.without("message"@).ends()
        },
    }
}

/// A written event has its tag, its session, and the members of its view.
proof fn lemma_event_written(v: EventView)
    ensures
        AgentEvent::encoded(v).member("event"@) == Member::Given(Tree::Text(event_name(v))),
        AgentEvent::encoded(v).without("event"@).member("session_id"@) == Member::Given(
            Tree::Text(event_session(v)),
        ),
        event_members(AgentEvent::encoded(v).without("event"@).without("session_id"@), v),
{
    lemma_event_literals();
    match v {
        EventView::AgentStop { reason, .. } => StopReason::round_trip(reason, true),
        EventView::MessageStart { role, .. } => Role::round_trip(role, true),
        EventView::ToolCallStart { tool_call, .. } => ToolCall::round_trip(tool_call, true),
        EventView::ToolCallEnd { tool_result, .. } => ToolResult::round_trip(tool_result, true),
        _ => {},
    }
}

/// [`lemma_event_written`] for every event that `t` may be the document of.
proof fn lemma_event_members(t: Tree)
    ensures
        forall|v: EventView|
            t == #[trigger] AgentEvent::encoded(v) ==> {
                &&& t.member("event"@) == Member::Given(Tree::Text(event_name(v)))
                &&& t.without("event"@).member("session_id"@) == Member::Given(
                    Tree::Text(event_session(v)),
                )
                &&& event_members(t.without("event"@).without("session_id"@), v)
            },
{
    assert forall|v: EventView| t == #[trigger] AgentEvent::encoded(v) implies {
        &&& t.member("event"@) == Member::Given(Tree::Text(event_name(v)))
        &&& t.without("event"@).member("session_id"@) == Member::Given(
            Tree::Text(event_session(v)),
        )
        &&& event_members(t.without("event"@).without("session_id"@), v)
    } by {
        lemma_event_written(v);
    }
}

/// What fills the gaps of an event fills those of the message in it.
proof fn lemma_event_fill(t: Tree, nested: bool)
    ensures
        ({
            let tag = t.member("event"@);
            let rest = t.without("event"@).without("session_id"@);
            &&& tag.tags(nested, 4, "message_end"@) ==> forall|m: Tree, fill: StampView|
                rest.member("message"@) == Member::Given(m) && #[trigger] Message::freshly_filled(
                    m,
                    true,
                    fill,
                ) ==> AgentEvent::freshly_filled(t, nested, fill)
            &&& tag.tags(nested, 7, "subagent_result"@) ==> forall|m: Tree, fill: StampView|
                rest.member("result"@) == Member::Given(m)
                    && #[trigger] SubagentResult::freshly_filled(m, true, fill)
                    ==> AgentEvent::freshly_filled(t, nested, fill)
            &&& !tag.tags(nested, 4, "message_end"@) && !tag.tags(nested, 7, "subagent_result"@)
                ==> forall|fill: StampView| #[trigger] AgentEvent::freshly_filled(t, nested, fill)
            &&& (forall|fill: StampView| #[trigger]
                AgentEvent::decoded(t, nested, fill) is None) ==> forall|fill: StampView|
                #[trigger] AgentEvent::freshly_filled(t, nested, fill)
        }),
{
    lemma_event_literals();
    let tag = t.member("event"@);
    let rest = t.without("event"@).without("session_id"@);
    assert forall|fill: StampView, other: StampView|
        !tag.tags(nested, 4, "message_end"@) && !tag.tags(
            nested,
            7,
            "subagent_result"@,
        ) implies #[trigger] AgentEvent::decoded(t, nested, fill) == #[trigger] AgentEvent::decoded(
        t,
        nested,
        other,
    ) by {
        lemma_event_fills_alike(t, nested, fill, other);
    }
    assert forall|m: Tree, fill: StampView|
        tag.tags(nested, 4, "message_end"@) && rest.member("message"@) == Member::Given(m)
            && #[trigger] Message::freshly_filled(
            m,
            true,
            fill,
        ) implies AgentEvent::freshly_filled(t, nested, fill) by {
        lemma_event_freshly_filled(t, nested, fill);
    }
    assert forall|m: Tree, fill: StampView|
        tag.tags(nested, 7, "subagent_result"@) && rest.member("result"@) == Member::Given(m)
            && #[trigger] SubagentResult::freshly_filled(
            m,
            true,
            fill,
        ) implies AgentEvent::freshly_filled(t, nested, fill) by {
        lemma_event_freshly_filled(t, nested, fill);
    }
}

/// Two fills that the message in an event does not tell apart, the event does
/// not.
proof fn lemma_event_fills_alike(t: Tree, nested: bool, fill: StampView, other: StampView)
    requires
        ({
            let tag = t.member("event"@);
            let rest = t.without("event"@).without("session_id"@);
            &&& tag.tags(nested, 4, "message_end"@) ==> exists|m: Tree|
                rest.member("message"@) == Member::Given(m) && #[trigger] Message::decoded(
                    m,
                    true,
                    fill,
                ) == Message::decoded(m, true, other)
            &&& tag.tags(nested, 7, "subagent_result"@) ==> exists|m: Tree|
                rest.member("result"@) == Member::Given(m) && #[trigger] SubagentResult::decoded(
                    m,
                    true,
                    fill,
                ) == SubagentResult::decoded(m, true, other)
        }),
    ensures
        AgentEvent::decoded(t, nested, fill) == AgentEvent::decoded(t, nested, other),
{
    lemma_event_literals();
}

/// An event whose message is freshly filled is.
proof fn lemma_event_freshly_filled(t: Tree, nested: bool, fill: StampView)
    requires
        ({
            let tag = t.member("event"@);
            let rest = t.without("event"@).without("session_id"@);
            ||| tag.tags(nested, 4, "message_end"@) && exists|m: Tree|
                rest.member("message"@) == Member::Given(m) && #[trigger] Message::freshly_filled(
                    m,
                    true,
                    fill,
                )
            ||| tag.tags(nested, 7, "subagent_result"@) && exists|m: Tree|
                rest.member("result"@) == Member::Given(m)
                    && #[trigger] SubagentResult::freshly_filled(m, true, fill)
        }),
    ensures
        AgentEvent::freshly_filled(t, nested, fill),
{
    lemma_event_literals();
    let rest = t.without("event"@).without("session_id"@);
    if !drawn(fill.id) {
        assert forall|id: u128| #[trigger]
            AgentEvent::decoded(t, nested, StampView { id, created_at: fill.created_at })
                == AgentEvent::decoded(t, nested, fill) by {
            let other = StampView { id, created_at: fill.created_at };
            if t.member("event"@).tags(nested, 4, "message_end"@) {
                let m = rest.member("message"@)->Given_0;
                assert(Message::decoded(m, true, other) == Message::decoded(m, true, fill));
            } else {
                let m = rest.member("result"@)->Given_0;
                assert(SubagentResult::decoded(m, true, other) == SubagentResult::decoded(
                    m,
                    true,
                    fill,
                ));
            }
            lemma_event_fills_alike(t, nested, other, fill);
        }
    }
    if !clock_read(fill.created_at) {
        assert forall|created_at: TimestampView| #[trigger]
            AgentEvent::decoded(t, nested, StampView { id: fill.id, created_at })
                == AgentEvent::decoded(t, nested, fill) by {
            let other = StampView { id: fill.id, created_at };
            if t.member("event"@).tags(nested, 4, "message_end"@) {
                let m = rest.member("message"@)->Given_0;
                assert(Message::decoded(m, true, other) == Message::decoded(m, true, fill));
            } else {
                let m = rest.member("result"@)->Given_0;
                assert(SubagentResult::decoded(m, true, other) == SubagentResult::decoded(
                    m,
                    true,
                    fill,
                ));
            }
            lemma_event_fills_alike(t, nested, other, fill);
        }
    }
}

/// The names of an event's members and tags differ from one another.
proof fn lemma_event_literals()
    ensures
        "event"@.len() == 5,
        "agent_start"@.len() == 11,
        "agent_stop"@.len() == 10,
        "message_start"@.len() == 13,
        "message_delta"@.len() == 13,
        "message_end"@.len() == 11,
        "tool_call_start"@.len() == 15,
        "tool_call_end"@.len() == 13,
        "subagent_result"@.len() == 15,
        "ask_user"@.len() == 8,
        "error"@.len() == 5,
        "session_id"@.len() == 10,
        "reason"@.len() == 6,
        "message_id"@.len() == 10,
        "role"@.len() == 4,
        "text"@.len() == 4,
        "message"@.len() == 7,
        "tool_call"@.len() == 9,
        "tool_result"@.len() == 11,
        "result"@.len() == 6,
        "tool_use_id"@.len() == 11,
        "prompt"@.len() == 6,
        "agent_start"@[0] != "message_end"@[0],
        "message_start"@[8] != "message_delta"@[8],
        "message_start"@[0] != "tool_call_end"@[0],
        "message_delta"@[0] != "tool_call_end"@[0],
        "tool_call_start"@[0] != "subagent_result"@[0],
        "session_id"@[0] != "message_id"@[0],
{
    reveal_strlit("event");
    reveal_strlit("agent_start");
    reveal_strlit("agent_stop");
    reveal_strlit("message_start");
    reveal_strlit("message_delta");
    reveal_strlit("message_end");
    reveal_strlit("tool_call_start");
    reveal_strlit("tool_call_end");
    reveal_strlit("subagent_result");
    reveal_strlit("ask_user");
    reveal_strlit("error");
    reveal_strlit("session_id");
    reveal_strlit("reason");
    reveal_strlit("message_id");
    reveal_strlit("role");
    reveal_strlit("text");
    reveal_strlit("message");
    reveal_strlit("tool_call");
    reveal_strlit("tool_result");
    reveal_strlit("result");
    reveal_strlit("tool_use_id");
    reveal_strlit("prompt");
}

/// Every event is written with its tag and its session.
pub proof fn event_tag_written(v: EventView)
    ensures
        AgentEvent::encoded(v).member("event"@) == Member::Given(Tree::Text(event_name(v))),
        AgentEvent::encoded(v).member("session_id"@) == Member::Given(
            Tree::Text(event_session(v)),
        ),
{
    lemma_event_literals();
    lemma_event_written(v);
}

/// The tag tells the variants of an event apart.
pub proof fn event_tags_tell_apart(a: EventView, b: EventView)
    requires
        event_name(a) == event_name(b),
    ensures
        a is AgentStart <==> b is AgentStart,
        a is AgentStop <==> b is AgentStop,
        a is MessageStart <==> b is MessageStart,
        a is MessageDelta <==> b is MessageDelta,
        a is MessageEnd <==> b is MessageEnd,
        a is ToolCallStart <==> b is ToolCallStart,
        a is ToolCallEnd <==> b is ToolCallEnd,
        a is SubagentResult <==> b is SubagentResult,
        a is AskUser <==> b is AskUser,
        a is Error <==> b is Error,
{
    lemma_event_literals();
}

/// The JSON payloads in an event leave room for the event around them.
pub open spec fn event_fits(v: EventView) -> bool {
    let within = (nesting_limit() - 1) as nat;
    match v {
        EventView::MessageEnd { message, .. } => forall|i: int|
            0 <= i < message.content.len() ==> block_fits(
                #[trigger] message.content[i],
                (within - 2) as nat,
            ),
        EventView::ToolCallStart { tool_call, .. } => reprints(
            tool_call.input,
            (within - 1) as nat,
        ),
        EventView::ToolCallEnd { tool_result, .. } => forall|i: int|
            0 <= i < tool_result.content.len() ==> block_fits(
                #[trigger] tool_result.content[i],
                (within - 2) as nat,
            ),
        EventView::SubagentResult { result, .. } => result.final_message matches Some(message)
            ==> forall|i: int|
            0 <= i < message.content.len() ==> block_fits(
                #[trigger] message.content[i],
                (within - 3) as nat,
            ),
        _ => true,
    }
}

/// The text of a subagent result is read back as it was, where the blocks of
/// its final message fit.
pub proof fn subagent_result_reprints(v: SubagentView, levels: nat)
    requires
        v.final_message matches Some(message) ==> forall|i: int|
            0 <= i < message.content.len() ==> block_fits(#[trigger] message.content[i], levels),
    ensures
        reprints(SubagentResult::encoded(v), levels + 3),
{
    reveal_with_fuel(reprints, 2);
    stop_reason_reprints(v.stop_reason, levels + 2);
    if let Some(message) = v.final_message {
        message_reprints(message, levels);
    }
}

/// The text of an event that fits is read back as the event was.
pub proof fn event_reprints(v: EventView)
    requires
        event_fits(v),
    ensures
        reprints(AgentEvent::encoded(v), nesting_limit()),
{
    let within = (nesting_limit() - 1) as nat;
    match v {
        EventView::AgentStop { reason, .. } => stop_reason_reprints(reason, within),
        EventView::MessageEnd { message, .. } => message_reprints(message, (within - 2) as nat),
        EventView::ToolCallStart { tool_call, .. } => call_reprints(
            tool_call,
            (within - 1) as nat,
        ),
        EventView::ToolCallEnd { tool_result, .. } => result_reprints(
            tool_result,
            (within - 2) as nat,
        ),
        EventView::SubagentResult { result, .. } => subagent_result_reprints(
            result,
            (within - 3) as nat,
        ),
        _ => {},
    }
    let entries = AgentEvent::encoded(v)->Record_0;
    assert forall|k: Seq<char>| entries.contains_key(k) implies reprints(
        #[trigger] entries[k],
        within,
    ) by {}
}

} // verus!
