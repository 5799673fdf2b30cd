//! Messages on the wire, part by part, and what the constructors build.

use vstd::prelude::*;
use crate::clock::{clock_read, rfc3339_parsed, rfc3339_printed, TimestampView};
use crate::content::{lemma_blocks_encoded, lemma_blocks_view, BlockView, ContentBlock};
use crate::json::{value_tree, Entries, Tree};
use crate::laws::content::many_blocks_read;
use crate::message::{
    call_blocks, call_texts, calls_become, drawn, id_text, into_text, messages_view,
    replies_become, reply_blocks, reply_texts, text_becomes, uuid_parsed, Message, MessageId,
    MessageView, Role,
};
use crate::stamp::{Stamp, StampView, StampedWire};
use crate::wire::Wire;

verus! {

/// Objects with one member are the same where their members are.
pub proof fn lemma_lone_names()
    ensures
        forall|a: Seq<char>, x: Tree, b: Seq<char>, y: Tree| #[trigger]
            Entries::empty().insert(a, x) == #[trigger] Entries::empty().insert(b, y) ==> a == b
                && x == y,
{
    assert forall|a: Seq<char>, x: Tree, b: Seq<char>, y: Tree| #[trigger]
        Entries::empty().insert(a, x) == #[trigger] Entries::empty().insert(
            b,
            y,
        ) implies a == b && x == y by {
        assert(Entries::empty().insert(b, y).contains_key(a));
        assert(Entries::empty().insert(a, x)[a] == x);
    }
}

/// The names differ from one another.
proof fn lemma_role_names()
    ensures
        "system"@.len() == 6,
        "user"@.len() == 4,
        "assistant"@.len() == 9,
        "tool"@.len() == 4,
        "user"@[0] != "tool"@[0],
{
    reveal_strlit("system");
    reveal_strlit("user");
    reveal_strlit("assistant");
    reveal_strlit("tool");
}

/// A role is written as its name, and read from that, from an object that
/// holds just that name with `null`, and within tagged values from one that
/// holds it with an empty object.
pub proof fn role_on_the_wire(v: Role, t: Tree, nested: bool)
    ensures
        ({
            let name = match v {
                Role::System => "system"@,
                Role::User => "user"@,
                Role::Assistant => "assistant"@,
                Role::Tool => "tool"@,
            };
            &&& Role::encoded(v) == Tree::Text(name)
            &&& Role::decoded(t, nested) == Some(v) <==> {
                ||| t == Tree::Text(name)
                ||| t == Tree::Record(Entries::empty().insert(name, Tree::Null))
                ||| nested && t == Tree::Record(
                    Entries::empty().insert(name, Tree::Record(Entries::empty())),
                )
            }
        }),
{
    lemma_role_names();
    lemma_lone_names();
}

/// A message id is written as its text, and read from a text that is one.
pub proof fn id_on_the_wire(v: u128, t: Tree, nested: bool, fill: StampView)
    ensures
        MessageId::encoded(v) == Tree::Text(id_text(v)),
        MessageId::decoded(t, nested, fill) == Some(v) <==> t is Text && uuid_parsed(t->Text_0)
            == Some(v),
{
}

/// The names differ from one another.
proof fn lemma_message_names()
    ensures
        "id"@.len() == 2,
        "role"@.len() == 4,
        "content"@.len() == 7,
        "created_at"@.len() == 10,
{
    reveal_strlit("id");
    reveal_strlit("role");
    reveal_strlit("content");
    reveal_strlit("created_at");
}

/// A message is read from an object exactly where each of its parts is what the
/// member of that name holds. No other member matters.
pub proof fn message_read_from_object(e: Entries, nested: bool, fill: StampView, v: MessageView)
    ensures
        Message::decoded(Tree::Record(e), nested, fill) == Some(v) <==> {
            &&& if e.contains_key("id"@) {
                e["id"@] is Text && uuid_parsed(e["id"@]->Text_0) == Some(v.id)
            } else {
                v.id == fill.id
            }
            &&& e.contains_key("role"@) && Role::decoded(e["role"@], nested) == Some(v.role)
            &&& e.contains_key("content"@)
            &&& e["content"@] is List
            &&& e["content"@]->List_0.len() == v.content.len()
            &&& forall|i: int|
                0 <= i < v.content.len() ==> ContentBlock::decoded(e["content"@]->List_0[i], nested)
                    == Some(#[trigger] v.content[i])
            &&& if e.contains_key("created_at"@) {
                &&& e["created_at"@] is Text
                &&& rfc3339_parsed(e["created_at"@]->Text_0)
                    == Some((v.created_at.secs, v.created_at.nanos))
            } else {
                v.created_at == fill.created_at
            }
        },
{
    lemma_message_names();
    many_blocks_read(e["content"@]->List_0, nested, v.content);
}

/// A message is read from an array exactly where its parts stand there in the
/// order of their declaration and nothing else does.
pub proof fn message_read_from_array(s: Seq<Tree>, nested: bool, fill: StampView, v: MessageView)
    ensures
        Message::decoded(Tree::List(s), nested, fill) == Some(v) <==> {
            &&& 3 <= s.len() <= 4
            &&& if s.len() > 0 {
                s[0] is Text && uuid_parsed(s[0]->Text_0) == Some(v.id)
            } else {
                v.id == fill.id
            }
            &&& s.len() > 1 && Role::decoded(s[1], nested) == Some(v.role)
            &&& s.len() > 2
            &&& s[2] is List
            &&& s[2]->List_0.len() == v.content.len()
            &&& forall|i: int|
                0 <= i < v.content.len() ==> ContentBlock::decoded(s[2]->List_0[i], nested)
                    == Some(#[trigger] v.content[i])
            &&& if s.len() > 3 {
                &&& s[3] is Text
                &&& rfc3339_parsed(s[3]->Text_0) == Some((v.created_at.secs, v.created_at.nanos))
            } else {
                v.created_at == fill.created_at
            }
        },
{
    lemma_message_names();
    many_blocks_read(s[2]->List_0, nested, v.content);
}

/// A message is read from nothing but objects and arrays.
pub proof fn message_read_from_nothing_else(t: Tree, nested: bool, fill: StampView)
    requires
        !(t is Record),
        !(t is List),
    ensures
        Message::decoded(t, nested, fill) is None,
{
}

/// A message is written as an object whose members hold its parts, each under
/// its name.
pub proof fn message_written(v: MessageView)
    ensures
        Message::encoded(v) is Record,
        ({
            let e = Message::encoded(v)->Record_0;
            &&& forall|k: Seq<char>| #[trigger]
                e.contains_key(k) <==> {
                    ||| k == "id"@
                    ||| k == "role"@
                    ||| k == "content"@
                    ||| k == "created_at"@
                }
            &&& e["id"@] == Tree::Text(id_text(v.id))
            &&& e["role"@] == Role::encoded(v.role)
            &&& e["content"@] is List
            &&& e["content"@]->List_0.len() == v.content.len()
            &&& forall|i: int|
                0 <= i < v.content.len() ==> #[trigger] e["content"@]->List_0[i]
                    == ContentBlock::encoded(v.content[i])
            &&& e["created_at"@]
                == Tree::Text(rfc3339_printed(v.created_at.secs, v.created_at.nanos))
        }),
{
    lemma_message_names();
    lemma_blocks_encoded(v.content);
}

/// The view of a message holds its parts, and that of an id its bits.
pub proof fn message_says(message: Message, id: MessageId, stamp: Stamp)
    ensures
        message@.id == message.id.0,
        message@.role == message.role,
        message@.content.len() == message.content@.len(),
        forall|i: int|
            0 <= i < message.content@.len() ==> #[trigger] message@.content[i]
                == message.content@[i]@,
        message@.created_at == message.created_at@,
        id@ == id.0,
        stamp@.id == stamp.id.0,
        stamp@.created_at == stamp.created_at@,
{
    lemma_blocks_view(message.content@);
}

/// A text message has one block, with the text.
pub proof fn one_text_block<S: Into<String>>(text: S, content: Seq<BlockView>)
    requires
        text_becomes(text, content),
    ensures
        content.len() == 1,
        exists|t: String| #[trigger]
            into_text(text, t) && content[0] == (BlockView::Text { text: t@ }),
{
}

/// A text message of a given text has one block, with just that text.
pub proof fn text_is_kept(borrowed: &str, owned: String, content: Seq<BlockView>)
    ensures
        text_becomes(borrowed, content) ==> content == seq![BlockView::Text { text: borrowed@ }],
        text_becomes(owned, content) ==> content == seq![BlockView::Text { text: owned@ }],
{
}

/// Each call becomes one block, with its id, its name and its input.
pub proof fn each_call_is_a_block<S1: Into<String>, S2: Into<String>>(
    calls: Seq<(S1, S2, serde_json::Value)>,
    content: Seq<BlockView>,
    i: int,
)
    requires
        calls_become(calls, content),
        0 <= i < calls.len(),
    ensures
        content.len() == calls.len(),
        exists|id: String, name: String| #[trigger]
            into_text(calls[i].0, id) && #[trigger] into_text(calls[i].1, name) && content[i] == (
            BlockView::ToolUse { id: id@, name: name@, input: value_tree(calls[i].2) }),
{
    let texts = choose|texts: Seq<(String, String, serde_json::Value)>| #[trigger]
        call_texts(calls, texts) && content == call_blocks(texts);
    assert(into_text(calls[i].0, texts[i].0) && into_text(calls[i].1, texts[i].1));
}

/// The block of a call that is given as texts has those texts.
pub proof fn call_texts_are_kept(calls: Seq<(String, String, serde_json::Value)>, i: int)
    requires
        0 <= i < calls.len(),
    ensures
        call_blocks(calls).len() == calls.len(),
        call_blocks(calls)[i] == (BlockView::ToolUse {
            id: calls[i].0@,
            name: calls[i].1@,
            input: value_tree(calls[i].2),
        }),
{
}

/// Each reply becomes one block, with the id of its call and one text, which
/// is no error.
pub proof fn each_reply_is_a_block<S1: Into<String>, S2: Into<String>>(
    results: Seq<(S1, S2)>,
    content: Seq<BlockView>,
    i: int,
)
    requires
        replies_become(results, content),
        0 <= i < results.len(),
    ensures
        content.len() == results.len(),
        exists|id: String, text: String| #[trigger]
            into_text(results[i].0, id) && #[trigger] into_text(results[i].1, text) && content[i]
                == (BlockView::ToolResult {
                tool_use_id: id@,
                content: seq![BlockView::Text { text: text@ }],
                is_error: false,
            }),
{
    let texts = choose|texts: Seq<(String, String)>| #[trigger]
        reply_texts(results, texts) && content == reply_blocks(texts);
    assert(into_text(results[i].0, texts[i].0) && into_text(results[i].1, texts[i].1));
}

/// The block of a reply that is given as texts has those texts.
pub proof fn reply_texts_are_kept(results: Seq<(String, String)>, i: int)
    requires
        0 <= i < results.len(),
    ensures
        reply_blocks(results).len() == results.len(),
        reply_blocks(results)[i] == (BlockView::ToolResult {
            tool_use_id: results[i].0@,
            content: seq![BlockView::Text { text: results[i].1@ }],
            is_error: false,
        }),
{
}

/// The views of several messages are theirs, in order.
pub proof fn messages_say(messages: Seq<Message>)
    ensures
        messages_view(messages).len() == messages.len(),
        forall|i: int|
            0 <= i < messages.len() ==> #[trigger] messages_view(messages)[i] == messages[i]@,
{
}

/// A message that is read from an object without an id or a creation time, and
/// freshly filled, has an id that was drawn and a time that was read for it.
pub proof fn gaps_are_freshly_filled(e: Entries, nested: bool, fill: StampView, v: MessageView)
    requires
        Message::decoded(Tree::Record(e), nested, fill) == Some(v),
        Message::freshly_filled(Tree::Record(e), nested, fill),
    ensures
        !e.contains_key("id"@) ==> drawn(v.id),
        !e.contains_key("created_at"@) ==> clock_read(v.created_at),
{
    let t = Tree::Record(e);
    message_read_from_object(e, nested, fill, v);
    if !drawn(fill.id) {
        let id: u128 = if fill.id == 0 {
            1
        } else {
            0
        };
        let other = StampView { id, created_at: fill.created_at };
        assert(Message::decoded(t, nested, other) == Some(v));
        message_read_from_object(e, nested, other, v);
    }
    if !clock_read(fill.created_at) {
        let created_at = TimestampView {
            secs: fill.created_at.secs + 1,
            nanos: fill.created_at.nanos,
        };
        let other = StampView { id: fill.id, created_at };
        assert(Message::decoded(t, nested, other) == Some(v));
        message_read_from_object(e, nested, other, v);
    }
}

/// The same of a message that is read from an array.
pub proof fn gaps_of_an_array_are_freshly_filled(
    s: Seq<Tree>,
    nested: bool,
    fill: StampView,
    v: MessageView,
)
    requires
        Message::decoded(Tree::List(s), nested, fill) == Some(v),
        Message::freshly_filled(Tree::List(s), nested, fill),
    ensures
        s.len() == 3 ==> clock_read(v.created_at),
{
    let t = Tree::List(s);
    message_read_from_array(s, nested, fill, v);
    if !clock_read(fill.created_at) {
        let created_at = TimestampView {
            secs: fill.created_at.secs + 1,
            nanos: fill.created_at.nanos,
        };
        let other = StampView { id: fill.id, created_at };
        assert(Message::decoded(t, nested, other) == Some(v));
        message_read_from_array(s, nested, other, v);
    }
}

} // verus!
