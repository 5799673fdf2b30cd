//! Agent events on the wire, part by part.

use vstd::prelude::*;
use crate::event::{AgentEvent, EventView, SubagentResult, SubagentView};
use crate::hook::StopReason;
use crate::json::{Entries, Numeral, Tree};
use crate::message::{Message, MessageId, Role};
use crate::stamp::{StampView, StampedWire};
use crate::tool::{ToolCall, ToolResult};
use crate::wire::Wire;

verus! {

/// The names differ from one another.
proof fn lemma_subagent_result_names()
    ensures
        "session_id"@.len() == 10,
        "stop_reason"@.len() == 11,
        "final_message"@.len() == 13,
{
    reveal_strlit("session_id");
    reveal_strlit("stop_reason");
    reveal_strlit("final_message");
}

/// A subagent result is read from an object exactly where each of its parts is what the
/// member of that name holds. No other member matters.
pub proof fn subagent_result_read_from_object(
    e: Entries,
    nested: bool,
    fill: StampView,
    v: SubagentView,
)
    ensures
        SubagentResult::decoded(Tree::Record(e), nested, fill) == Some(v) <==> {
            &&& e.contains_key("session_id"@) && e["session_id"@] == Tree::Text(v.session_id)
            &&& e.contains_key("stop_reason"@)
            &&& StopReason::decoded(e["stop_reason"@], nested) == Some(v.stop_reason)
            &&& match v.final_message {
                Some(given) => {
                    &&& e.contains_key("final_message"@)
                    &&& e["final_message"@] != Tree::Null
                    &&& Message::decoded(e["final_message"@], nested, fill) == Some(given)
                },
                None => e.contains_key("final_message"@) ==> e["final_message"@] == Tree::Null,
            }
        },
{
    lemma_subagent_result_names();
}

/// A subagent result is read from an array exactly where its parts stand there in the
/// order of their declaration and nothing else does.
pub proof fn subagent_result_read_from_array(
    s: Seq<Tree>,
    nested: bool,
    fill: StampView,
    v: SubagentView,
)
    ensures
        SubagentResult::decoded(Tree::List(s), nested, fill) == Some(v) <==> {
            &&& 2 <= s.len() <= 3
            &&& s.len() > 0 && s[0] == Tree::Text(v.session_id)
            &&& s.len() > 1 && StopReason::decoded(s[1], nested) == Some(v.stop_reason)
            &&& match v.final_message {
                Some(given) => {
                    &&& s.len() > 2
                    &&& s[2] != Tree::Null
                    &&& Message::decoded(s[2], nested, fill) == Some(given)
                },
                None => s.len() > 2 ==> s[2] == Tree::Null,
            }
        },
{
    lemma_subagent_result_names();
}

/// A subagent result is read from nothing but objects and arrays.
pub proof fn subagent_result_read_from_nothing_else(t: Tree, nested: bool, fill: StampView)
    requires
        !(t is Record),
        !(t is List),
    ensures
        SubagentResult::decoded(t, nested, fill) is None,
{
}

/// A subagent result is written as an object whose members hold its parts, each under
/// its name.
pub proof fn subagent_result_written(v: SubagentView)
    ensures
        SubagentResult::encoded(v) is Record,
        ({
            let e = SubagentResult::encoded(v)->Record_0;
            &&& forall|k: Seq<char>| #[trigger]
                e.contains_key(k) <==> {
                    ||| k == "session_id"@
                    ||| k == "stop_reason"@
                    ||| k == "final_message"@ && v.final_message is Some
                }
            &&& e["session_id"@] == Tree::Text(v.session_id)
            &&& e["stop_reason"@] == StopReason::encoded(v.stop_reason)
            &&& v.final_message matches Some(given) ==> e["final_message"@]
                == Message::encoded(given)
        }),
{
    lemma_subagent_result_names();
}

/// The names differ from one another.
proof fn lemma_event_names()
    ensures
        "event"@.len() == 5,
        "session_id"@.len() == 10,
        "reason"@.len() == 6,
        "message_id"@.len() == 10,
        "role"@.len() == 4,
        "text"@.len() == 4,
        "message"@.len() == 7,
        "tool_call"@.len() == 9,
        "tool_result"@.len() == 11,
        "result"@.len() == 6,
        "tool_use_id"@.len() == 11,
        "prompt"@.len() == 6,
        "agent_start"@.len() == 11,
        "agent_stop"@.len() == 10,
        "message_start"@.len() == 13,
        "message_delta"@.len() == 13,
        "message_end"@.len() == 11,
        "tool_call_start"@.len() == 15,
        "tool_call_end"@.len() == 13,
        "subagent_result"@.len() == 15,
        "ask_user"@.len() == 8,
        "error"@.len() == 5,
        "session_id"@[0] != "message_id"@[0],
        "reason"@[2] != "result"@[2],
        "reason"@[0] != "prompt"@[0],
        "role"@[0] != "text"@[0],
        "tool_result"@[5] != "tool_use_id"@[5],
        "result"@[0] != "prompt"@[0],
        "agent_start"@[0] != "message_end"@[0],
        "message_start"@[8] != "message_delta"@[8],
        "message_start"@[0] != "tool_call_end"@[0],
        "message_delta"@[0] != "tool_call_end"@[0],
        "tool_call_start"@[0] != "subagent_result"@[0],
{
    reveal_strlit("event");
    reveal_strlit("session_id");
    reveal_strlit("reason");
    reveal_strlit("message_id");
    reveal_strlit("role");
    reveal_strlit("text");
    reveal_strlit("message");
    reveal_strlit("tool_call");
    reveal_strlit("tool_result");
    reveal_strlit("result");
    reveal_strlit("tool_use_id");
    reveal_strlit("prompt");
    reveal_strlit("agent_start");
    reveal_strlit("agent_stop");
    reveal_strlit("message_start");
    reveal_strlit("message_delta");
    reveal_strlit("message_end");
    reveal_strlit("tool_call_start");
    reveal_strlit("tool_call_end");
    reveal_strlit("subagent_result");
    reveal_strlit("ask_user");
    reveal_strlit("error");
}

/// An event is read from an object exactly where its tag names its variant and each of its
/// parts is what the member of that name holds. No other member matters.
pub proof fn event_read_from_object(e: Entries, nested: bool, fill: StampView, v: EventView)
    ensures
        AgentEvent::decoded(Tree::Record(e), nested, fill) == Some(v) <==> match v {
            EventView::AgentStart { session_id } => {
                &&& e.contains_key("event"@)
                &&& e["event"@] == Tree::Text("agent_start"@) || nested && e["event"@]
                    == Tree::Number(Numeral::Natural(0))
                &&& e.contains_key("session_id"@) && e["session_id"@] == Tree::Text(session_id)
            },
            EventView::AgentStop { session_id, reason } => {
                &&& e.contains_key("event"@)
                &&& e["event"@] == Tree::Text("agent_stop"@) || nested && e["event"@]
                    == Tree::Number(Numeral::Natural(1))
                &&& e.contains_key("session_id"@) && e["session_id"@] == Tree::Text(session_id)
                &&& e.contains_key("reason"@)
                &&& StopReason::decoded(e["reason"@], true) == Some(reason)
            },
            EventView::MessageStart { session_id, message_id, role } => {
                &&& e.contains_key("event"@)
                &&& e["event"@] == Tree::Text("message_start"@) || nested && e["event"@]
                    == Tree::Number(Numeral::Natural(2))
                &&& e.contains_key("session_id"@) && e["session_id"@] == Tree::Text(session_id)
                &&& e.contains_key("message_id"@)
                &&& MessageId::decoded(e["message_id"@], true, fill) == Some(message_id)
                &&& e.contains_key("role"@) && Role::decoded(e["role"@], true) == Some(role)
            },
            EventView::MessageDelta { session_id, message_id, text } => {
                &&& e.contains_key("event"@)
                &&& e["event"@] == Tree::Text("message_delta"@) || nested && e["event"@]
                    == Tree::Number(Numeral::Natural(3))
                &&& e.contains_key("session_id"@) && e["session_id"@] == Tree::Text(session_id)
                &&& e.contains_key("message_id"@)
                &&& MessageId::decoded(e["message_id"@], true, fill) == Some(message_id)
                &&& e.contains_key("text"@) && e["text"@] == Tree::Text(text)
            },
            EventView::MessageEnd { session_id, message } => {
                &&& e.contains_key("event"@)
                &&& e["event"@] == Tree::Text("message_end"@) || nested && e["event"@]
                    == Tree::Number(Numeral::Natural(4))
                &&& e.contains_key("session_id"@) && e["session_id"@] == Tree::Text(session_id)
                &&& e.contains_key("message"@)
                &&& Message::decoded(e["message"@], true, fill) == Some(message)
            },
            EventView::ToolCallStart { session_id, tool_call } => {
                &&& e.contains_key("event"@)
                &&& e["event"@] == Tree::Text("tool_call_start"@) || nested && e["event"@]
                    == Tree::Number(Numeral::Natural(5))
                &&& e.contains_key("session_id"@) && e["session_id"@] == Tree::Text(session_id)
                &&& e.contains_key("tool_call"@)
                &&& ToolCall::decoded(e["tool_call"@], true) == Some(tool_call)
            },
            EventView::ToolCallEnd { session_id, tool_result } => {
                &&& e.contains_key("event"@)
                &&& e["event"@] == Tree::Text("tool_call_end"@) || nested && e["event"@]
                    == Tree::Number(Numeral::Natural(6))
                &&& e.contains_key("session_id"@) && e["session_id"@] == Tree::Text(session_id)
                &&& e.contains_key("tool_result"@)
                &&& ToolResult::decoded(e["tool_result"@], true) == Some(tool_result)
            },
            EventView::SubagentResult { session_id, result } => {
                &&& e.contains_key("event"@)
                &&& e["event"@] == Tree::Text("subagent_result"@) || nested && e["event"@]
                    == Tree::Number(Numeral::Natural(7))
                &&& e.contains_key("session_id"@) && e["session_id"@] == Tree::Text(session_id)
                &&& e.contains_key("result"@)
                &&& SubagentResult::decoded(e["result"@], true, fill) == Some(result)
            },
            EventView::AskUser { session_id, tool_use_id, prompt } => {
                &&& e.contains_key("event"@)
                &&& e["event"@] == Tree::Text("ask_user"@) || nested && e["event"@]
                    == Tree::Number(Numeral::Natural(8))
                &&& e.contains_key("session_id"@) && e["session_id"@] == Tree::Text(session_id)
                &&& e.contains_key("tool_use_id"@) && e["tool_use_id"@] == Tree::Text(tool_use_id)
                &&& e.contains_key("prompt"@) && e["prompt"@] == Tree::Text(prompt)
            },
            EventView::Error { session_id, message } => {
                &&& e.contains_key("event"@)
                &&& e["event"@] == Tree::Text("error"@) || nested && e["event"@]
                    == Tree::Number(Numeral::Natural(9))
                &&& e.contains_key("session_id"@) && e["session_id"@] == Tree::Text(session_id)
                &&& e.contains_key("message"@) && e["message"@] == Tree::Text(message)
            },
        },
{
    lemma_event_names();
}

/// An event is read from an array exactly where its tag and its parts stand there in the
/// order of their declaration and nothing else does.
pub proof fn event_read_from_array(s: Seq<Tree>, nested: bool, fill: StampView, v: EventView)
    ensures
        AgentEvent::decoded(Tree::List(s), nested, fill) == Some(v) <==> match v {
            EventView::AgentStart { session_id } => {
                &&& s.len() > 0
                &&& s[0] == Tree::Text("agent_start"@) || nested && s[0]
                    == Tree::Number(Numeral::Natural(0))
                &&& 2 <= s.len() <= 2
                &&& s.len() > 1 && s[1] == Tree::Text(session_id)
            },
            EventView::AgentStop { session_id, reason } => {
                &&& s.len() > 0
                &&& s[0] == Tree::Text("agent_stop"@) || nested && s[0]
                    == Tree::Number(Numeral::Natural(1))
                &&& 3 <= s.len() <= 3
                &&& s.len() > 1 && s[1] == Tree::Text(session_id)
                &&& s.len() > 2 && StopReason::decoded(s[2], true) == Some(reason)
            },
            EventView::MessageStart { session_id, message_id, role } => {
                &&& s.len() > 0
                &&& s[0] == Tree::Text("message_start"@) || nested && s[0]
                    == Tree::Number(Numeral::Natural(2))
                &&& 4 <= s.len() <= 4
                &&& s.len() > 1 && s[1] == Tree::Text(session_id)
                &&& s.len() > 2 && MessageId::decoded(s[2], true, fill) == Some(message_id)
                &&& s.len() > 3 && Role::decoded(s[3], true) == Some(role)
            },
            EventView::MessageDelta { session_id, message_id, text } => {
                &&& s.len() > 0
                &&& s[0] == Tree::Text("message_delta"@) || nested && s[0]
                    == Tree::Number(Numeral::Natural(3))
                &&& 4 <= s.len() <= 4
                &&& s.len() > 1 && s[1] == Tree::Text(session_id)
                &&& s.len() > 2 && MessageId::decoded(s[2], true, fill) == Some(message_id)
                &&& s.len() > 3 && s[3] == Tree::Text(text)
            },
            EventView::MessageEnd { session_id, message } => {
                &&& s.len() > 0
                &&& s[0] == Tree::Text("message_end"@) || nested && s[0]
                    == Tree::Number(Numeral::Natural(4))
                &&& 3 <= s.len() <= 3
                &&& s.len() > 1 && s[1] == Tree::Text(session_id)
                &&& s.len() > 2 && Message::decoded(s[2], true, fill) == Some(message)
            },
            EventView::ToolCallStart { session_id, tool_call } => {
                &&& s.len() > 0
                &&& s[0] == Tree::Text("tool_call_start"@) || nested && s[0]
                    == Tree::Number(Numeral::Natural(5))
                &&& 3 <= s.len() <= 3
                &&& s.len() > 1 && s[1] == Tree::Text(session_id)
                &&& s.len() > 2 && ToolCall::decoded(s[2], true) == Some(tool_call)
            },
            EventView::ToolCallEnd { session_id, tool_result } => {
                &&& s.len() > 0
                &&& s[0] == Tree::Text("tool_call_end"@) || nested && s[0]
                    == Tree::Number(Numeral::Natural(6))
                &&& 3 <= s.len() <= 3
                &&& s.len() > 1 && s[1] == Tree::Text(session_id)
                &&& s.len() > 2 && ToolResult::decoded(s[2], true) == Some(tool_result)
            },
            EventView::SubagentResult { session_id, result } => {
                &&& s.len() > 0
                &&& s[0] == Tree::Text("subagent_result"@) || nested && s[0]
                    == Tree::Number(Numeral::Natural(7))
                &&& 3 <= s.len() <= 3
                &&& s.len() > 1 && s[1] == Tree::Text(session_id)
                &&& s.len() > 2 && SubagentResult::decoded(s[2], true, fill) == Some(result)
            },
            EventView::AskUser { session_id, tool_use_id, prompt } => {
                &&& s.len() > 0
                &&& s[0] == Tree::Text("ask_user"@) || nested && s[0]
                    == Tree::Number(Numeral::Natural(8))
                &&& 4 <= s.len() <= 4
                &&& s.len() > 1 && s[1] == Tree::Text(session_id)
                &&& s.len() > 2 && s[2] == Tree::Text(tool_use_id)
                &&& s.len() > 3 && s[3] == Tree::Text(prompt)
            },
            EventView::Error { session_id, message } => {
                &&& s.len() > 0
                &&& s[0] == Tree::Text("error"@) || nested && s[0]
                    == Tree::Number(Numeral::Natural(9))
                &&& 3 <= s.len() <= 3
                &&& s.len() > 1 && s[1] == Tree::Text(session_id)
                &&& s.len() > 2 && s[2] == Tree::Text(message)
            },
        },
{
    lemma_event_names();
}

/// An event is read from nothing but objects and arrays.
pub proof fn event_read_from_nothing_else(t: Tree, nested: bool, fill: StampView)
    requires
        !(t is Record),
        !(t is List),
    ensures
        AgentEvent::decoded(t, nested, fill) is None,
{
}

/// An event is written as an object with its tag, whose other members hold its
/// parts, each under its name.
pub proof fn event_written(v: EventView)
    ensures
        AgentEvent::encoded(v) is Record,
        ({
            let e = AgentEvent::encoded(v)->Record_0;
            match v {
                EventView::AgentStart { session_id } => {
                    &&& forall|k: Seq<char>| #[trigger]
                        e.contains_key(k) <==> {
                            ||| k == "event"@
                            ||| k == "session_id"@
                        }
                    &&& e["event"@] == Tree::Text("agent_start"@)
                    &&& e["session_id"@] == Tree::Text(session_id)
                },
                EventView::AgentStop { session_id, reason } => {
                    &&& forall|k: Seq<char>| #[trigger]
                        e.contains_key(k) <==> {
                            ||| k == "event"@
                            ||| k == "session_id"@
                            ||| k == "reason"@
                        }
                    &&& e["event"@] == Tree::Text("agent_stop"@)
                    &&& e["session_id"@] == Tree::Text(session_id)
                    &&& e["reason"@] == StopReason::encoded(reason)
                },
                EventView::MessageStart { session_id, message_id, role } => {
                    &&& forall|k: Seq<char>| #[trigger]
                        e.contains_key(k) <==> {
                            ||| k == "event"@
                            ||| k == "session_id"@
                            ||| k == "message_id"@
                            ||| k == "role"@
                        }
                    &&& e["event"@] == Tree::Text("message_start"@)
                    &&& e["session_id"@] == Tree::Text(session_id)
                    &&& e["message_id"@] == MessageId::encoded(message_id)
                    &&& e["role"@] == Role::encoded(role)
                },
                EventView::MessageDelta { session_id, message_id, text } => {
                    &&& forall|k: Seq<char>| #[trigger]
                        e.contains_key(k) <==> {
                            ||| k == "event"@
                            ||| k == "session_id"@
                            ||| k == "message_id"@
                            ||| k == "text"@
                        }
                    &&& e["event"@] == Tree::Text("message_delta"@)
                    &&& e["session_id"@] == Tree::Text(session_id)
                    &&& e["message_id"@] == MessageId::encoded(message_id)
                    &&& e["text"@] == Tree::Text(text)
                },
                EventView::MessageEnd { session_id, message } => {
                    &&& forall|k: Seq<char>| #[trigger]
                        e.contains_key(k) <==> {
                            ||| k == "event"@
                            ||| k == "session_id"@
                            ||| k == "message"@
                        }
                    &&& e["event"@] == Tree::Text("message_end"@)
                    &&& e["session_id"@] == Tree::Text(session_id)
                    &&& e["message"@] == Message::encoded(message)
                },
                EventView::ToolCallStart { session_id, tool_call } => {
                    &&& forall|k: Seq<char>| #[trigger]
                        e.contains_key(k) <==> {
                            ||| k == "event"@
                            ||| k == "session_id"@
                            ||| k == "tool_call"@
                        }
                    &&& e["event"@] == Tree::Text("tool_call_start"@)
                    &&& e["session_id"@] == Tree::Text(session_id)
                    &&& e["tool_call"@] == ToolCall::encoded(tool_call)
                },
                EventView::ToolCallEnd { session_id, tool_result } => {
                    &&& forall|k: Seq<char>| #[trigger]
                        e.contains_key(k) <==> {
                            ||| k == "event"@
                            ||| k == "session_id"@
                            ||| k == "tool_result"@
                        }
                    &&& e["event"@] == Tree::Text("tool_call_end"@)
                    &&& e["session_id"@] == Tree::Text(session_id)
                    &&& e["tool_result"@] == ToolResult::encoded(tool_result)
                },
                EventView::SubagentResult { session_id, result } => {
                    &&& forall|k: Seq<char>| #[trigger]
                        e.contains_key(k) <==> {
                            ||| k == "event"@
                            ||| k == "session_id"@
                            ||| k == "result"@
                        }
                    &&& e["event"@] == Tree::Text("subagent_result"@)
                    &&& e["session_id"@] == Tree::Text(session_id)
                    &&& e["result"@] == SubagentResult::encoded(result)
                },
                EventView::AskUser { session_id, tool_use_id, prompt } => {
                    &&& forall|k: Seq<char>| #[trigger]
                        e.contains_key(k) <==> {
                            ||| k == "event"@
                            ||| k == "session_id"@
                            ||| k == "tool_use_id"@
                            ||| k == "prompt"@
                        }
                    &&& e["event"@] == Tree::Text("ask_user"@)
                    &&& e["session_id"@] == Tree::Text(session_id)
                    &&& e["tool_use_id"@] == Tree::Text(tool_use_id)
                    &&& e["prompt"@] == Tree::Text(prompt)
                },
                EventView::Error { session_id, message } => {
                    &&& forall|k: Seq<char>| #[trigger]
                        e.contains_key(k) <==> {
                            ||| k == "event"@
                            ||| k == "session_id"@
                            ||| k == "message"@
                        }
                    &&& e["event"@] == Tree::Text("error"@)
                    &&& e["session_id"@] == Tree::Text(session_id)
                    &&& e["message"@] == Tree::Text(message)
                },
            }
        }),
{
    lemma_event_names();
}

/// The view of an event holds its parts.
pub proof fn event_says(event: AgentEvent)
    ensures
        match event {
            AgentEvent::AgentStart { session_id } => event@ == (EventView::AgentStart {
                session_id: session_id@,
            }),
            AgentEvent::AgentStop { session_id, reason } => event@ == (EventView::AgentStop {
                session_id: session_id@,
                reason: reason@,
            }),
            AgentEvent::MessageStart { session_id, message_id, role } => event@ == (
            EventView::MessageStart {
                session_id: session_id@,
                message_id: message_id@,
                role: role@,
            }),
            AgentEvent::MessageDelta { session_id, message_id, text } => event@ == (
            EventView::MessageDelta {
                session_id: session_id@,
                message_id: message_id@,
                text: text@,
            }),
            AgentEvent::MessageEnd { session_id, message } => event@ == (EventView::MessageEnd {
                session_id: session_id@,
                message: message@,
            }),
            AgentEvent::ToolCallStart { session_id, tool_call } => event@ == (
            EventView::ToolCallStart {
                session_id: session_id@,
                tool_call: tool_call@,
            }),
            AgentEvent::ToolCallEnd { session_id, tool_result } => event@ == (
            EventView::ToolCallEnd {
                session_id: session_id@,
                tool_result: tool_result@,
            }),
            AgentEvent::SubagentResult { session_id, result } => event@ == (
            EventView::SubagentResult {
                session_id: session_id@,
                result: result@,
            }),
            AgentEvent::AskUser { session_id, tool_use_id, prompt } => event@ == (
            EventView::AskUser {
                session_id: session_id@,
                tool_use_id: tool_use_id@,
                prompt: prompt@,
            }),
            AgentEvent::Error { session_id, message } => event@ == (EventView::Error {
                session_id: session_id@,
                message: message@,
            }),
        },
{
}

/// The view of a subagent result holds its parts.
pub proof fn subagent_result_says(result: SubagentResult)
    ensures
        result@.session_id == result.session_id@,
        result@.stop_reason == result.stop_reason@,
        result@.final_message is Some <==> result.final_message is Some,
        result.final_message matches Some(message) ==> result@.final_message == Some(message@),
{
}

} // verus!
