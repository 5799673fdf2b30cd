//! Conversation message types.
//!
//! [`Message`] is the shape of an LLM-conversation turn as it flows through
//! the Motosan stack: the agent loop, provider adapters, tools, and hooks
//! all agree on this representation.
//!
//! A [`Message`] has a [`Role`] (`system` / `user` / `assistant` / `tool`)
//! and a sequence of [`ContentBlock`] entries. Content is intentionally
//! multimodal: text, images, documents, tool calls, and tool results all share
//! one enum, so that providers can be added without changing the surface API.

use vstd::prelude::*;
use vstd::arithmetic::power::pow;
use crate::clock::{clock_read, rfc3339_parsed, rfc3339_printed, Timestamp, TimestampView};
use crate::content::{
    block_fits, blocks_decoded, blocks_encoded, blocks_reprint, blocks_value, blocks_view,
    clone_blocks, decode_blocks, lemma_blocks_round_trip, lemma_blocks_view, BlockView,
};
use crate::json::{close_value, empty_map, map_insert, open_value, reprints, value_tree, Node, Tree};
use crate::stamp::{Source, StampView, StampedWire};
use crate::wire::{text_value, variant_name, Fields, Member, Slot, Wire, WireError};

pub use crate::content::{ContentBlock, DocumentSource, ImageSource};

verus! {

/// Who authored a [`Message`].
#[derive(Debug, Clone, Copy, PartialEq, Eq, Hash, Structural)]
pub enum Role {
    /// System / instruction prompt from the framework or the harness.
    System,
    /// Input from the human or an upstream agent.
    User,
    /// Model output, which may hold tool calls.
    Assistant,
    /// Output of a tool invocation, in reply to an assistant's `tool_use` block.
    Tool,
}

impl View for Role {
    type V = Role;

    open spec fn view(&self) -> Role {
        *self
    }
}

/// The name of a role on the wire.
pub open spec fn role_name(role: Role) -> Seq<char> {
    match role {
        Role::System => "system"@,
        Role::User => "user"@,
        Role::Assistant => "assistant"@,
        Role::Tool => "tool"@,
    }
}

impl Wire for Role {
    open spec fn encoded(v: Role) -> Tree {
        Tree::Text(role_name(v))
    }

    open spec fn decoded(t: Tree, nested: bool) -> Option<Role> {
        if t.names(nested, "system"@) {
            Some(Role::System)
        } else if t.names(nested, "user"@) {
            Some(Role::User)
        } else if t.names(nested, "assistant"@) {
            Some(Role::Assistant)
        } else if t.names(nested, "tool"@) {
            Some(Role::Tool)
        } else {
            None
        }
    }

    open spec fn faithful(v: Role) -> bool {
        true
    }

    proof fn round_trip(v: Role, nested: bool) {
        reveal_strlit("system");
        reveal_strlit("user");
        reveal_strlit("assistant");
        reveal_strlit("tool");
        assert("system"@.len() == 6 && "user"@.len() == 4 && "assistant"@.len() == 9);
        assert("tool"@.len() == 4 && "user"@[0] != "tool"@[0]);
    }

    fn to_value(&self) -> (value: serde_json::Value) {
        match self {
            Role::System => text_value("system"),
            Role::User => text_value("user"),
            Role::Assistant => text_value("assistant"),
            Role::Tool => text_value("tool"),
        }
    }

    fn decode(value: serde_json::Value, nested: bool) -> (read: Result<Role, WireError>) {
        match variant_name(value, nested) {
            Some(name) => if name == String::from("system") {
                Ok(Role::System)
            } else if name == String::from("user") {
                Ok(Role::User)
            } else if name == String::from("assistant") {
                Ok(Role::Assistant)
            } else if name == String::from("tool") {
                Ok(Role::Tool)
            } else {
                Err(WireError::Mismatch)
            },
            None => Err(WireError::Mismatch),
        }
    }
}

/// The digit of a number below 16, in lower case.
pub open spec fn hex_digit(n: int) -> char {
    "0123456789abcdef"@[n]
}

/// The hexadecimal digit of `bits` that has `below` others to its right.
pub open spec fn hex_at(bits: u128, below: nat) -> char {
    hex_digit((bits as int / pow(16, below)) % 16)
}

/// An id as text: 32 hexadecimal digits, from the highest to the lowest, in
/// groups of 8, 4, 4, 4 and 12 with hyphens between them.
pub open spec fn id_text(bits: u128) -> Seq<char> {
    Seq::new(
        36,
        |i: int|
            if i == 8 || i == 13 || i == 18 || i == 23 {
                '-'
            } else if i < 8 {
                hex_at(bits, (31 - i) as nat)
            } else if i < 13 {
                hex_at(bits, (32 - i) as nat)
            } else if i < 18 {
                hex_at(bits, (33 - i) as nat)
            } else if i < 23 {
                hex_at(bits, (34 - i) as nat)
            } else {
                hex_at(bits, (35 - i) as nat)
            },
    )
}

/// The id has the version and the variant bits of a random UUID (version 4).
pub open spec fn random_id(bits: u128) -> bool {
    &&& (bits / 0x1000_0000_0000_0000_0000) % 16 == 4
    &&& (bits / 0x4000_0000_0000_0000) % 4 == 2
}

/// The id that `uuid` reads from a text, or `None` where the text is not a
/// UUID.
pub uninterp spec fn uuid_parsed(text: Seq<char>) -> Option<u128>;

/// `uuid::Uuid::new_v4`. Trusted: the bits are those of a version 4 UUID. The
/// others are random, and nothing is stated of them. `uuid` panics where the
/// system has no source of randomness.
#[verifier::external_body]
fn uuid_new() -> (bits: u128)
    ensures
        random_id(bits),
{
    uuid::Uuid::new_v4().as_u128()
}

/// The bits are some that the generator of `uuid` gave to a call.
pub closed spec fn drawn(bits: u128) -> bool {
    call_ensures(uuid_new, (), bits)
}

/// What was drawn is what a call of the generator returned.
proof fn drawn_by_a_call(bits: u128)
    requires
        drawn(bits),
    ensures
        call_ensures(uuid_new, (), bits),
        random_id(bits),
{
}

/// `Display` of `uuid::Uuid`. Trusted: the text is [`id_text`].
#[verifier::external_body]
fn uuid_print(bits: u128) -> (text: String)
    ensures
        text@ == id_text(bits),
{
    uuid::Uuid::from_u128(bits).to_string()
}

/// `uuid::Uuid::parse_str`. Trusted: what is read depends on the text alone;
/// and the text that is printed for an id is read as that id.
#[verifier::external_body]
fn uuid_parse(text: &str) -> (parsed: Option<u128>)
    ensures
        parsed == uuid_parsed(text@),
        forall|bits: u128| text@ == #[trigger] id_text(bits) ==> parsed == Some(bits),
{
    uuid::Uuid::parse_str(text).ok().map(|id| id.as_u128())
}

/// Stable identifier for a [`Message`].
///
/// The 128 bits of a UUID, so that messages can be referenced from events,
/// logs, and persisted transcripts without depending on positional ordering.
#[derive(Debug, Clone, Copy, PartialEq, Eq, Hash, Structural)]
pub struct MessageId(pub u128);

impl View for MessageId {
    type V = u128;

    open spec fn view(&self) -> u128 {
        self.0
    }
}

impl MessageId {
    /// Generate a fresh random `MessageId`.
    ///
    /// Panics where the system has no source of randomness.
    pub fn new() -> (id: MessageId)
        ensures
            random_id(id@),
            drawn(id@),
    {
        MessageId(uuid_new())
    }

    /// The id as hyphenated text.
    pub fn to_text(&self) -> (text: String)
        ensures
            text@ == id_text(self@),
    {
        uuid_print(self.0)
    }

    /// Reads an id from text. What [`MessageId::to_text`] writes is read back.
    pub fn parse(text: &str) -> (id: Option<MessageId>)
        ensures
            id is Some <==> uuid_parsed(text@) is Some,
            id matches Some(id) ==> uuid_parsed(text@) == Some(id@),
            forall|bits: u128| text@ == #[trigger] id_text(bits) ==> id == Some(MessageId(bits)),
    {
        match uuid_parse(text) {
            Some(bits) => Some(MessageId(bits)),
            None => None,
        }
    }
}

impl Default for MessageId {
    /// A fresh random id, as [`MessageId::new`] makes it.
    fn default() -> (id: MessageId)
        ensures
            random_id(id@),
            drawn(id@),
    {
        MessageId::new()
    }
}

impl StampedWire for MessageId {
    open spec fn encoded(v: u128) -> Tree {
        Tree::Text(id_text(v))
    }

    open spec fn decoded(t: Tree, nested: bool, fill: StampView) -> Option<u128> {
        match t {
            Tree::Text(s) => uuid_parsed(s),
            _ => None,
        }
    }

    open spec fn faithful(v: u128) -> bool {
        true
    }

    fn to_value(&self) -> (value: serde_json::Value) {
        assert(MessageId::encoded(self@) == Tree::Text(id_text(self@)) && MessageId::faithful(
            self@,
        ));
        close_value(Node::Text(self.to_text()))
    }

    fn decode(value: serde_json::Value, nested: bool, source: &Source) -> (read: Result<
        MessageId,
        WireError,
    >) {
        proof {
            source.lemma_gives();
            assert(forall|fill: StampView|
                MessageId::freshly_filled(value_tree(value), nested, fill));
        }
        match open_value(value) {
            Node::Text(s) => match MessageId::parse(&s) {
                Some(id) => Ok(id),
                None => Err(WireError::Mismatch),
            },
            _ => Err(WireError::Mismatch),
        }
    }
}

/// Whether `b` is `false`: such a flag is not written.
pub fn is_false(b: &bool) -> (answer: bool)
    ensures
        answer == !*b,
{
    !*b
}

/// One turn in an LLM conversation.
///
/// Held flat, with no provider-specific shape. The agent loop owns the
/// transcript ordering; this type just describes one entry.
#[derive(Debug, PartialEq)]
pub struct Message {
    /// Stable id for this message.
    pub id: MessageId,
    /// Who authored the message.
    pub role: Role,
    /// Multimodal content blocks, in order.
    pub content: Vec<ContentBlock>,
    /// Wall-clock timestamp of when the message was created.
    pub created_at: Timestamp,
}

/// What a [`Message`] says.
pub struct MessageView {
    pub id: u128,
    pub role: Role,
    pub content: Seq<BlockView>,
    pub created_at: TimestampView,
}

impl View for Message {
    type V = MessageView;

    open spec fn view(&self) -> MessageView {
        MessageView {
            id: self.id@,
            role: self.role,
            content: blocks_view(self.content@),
            created_at: self.created_at@,
        }
    }
}

impl Clone for Message {
    fn clone(&self) -> (copy: Message)
        ensures
            copy@ == self@,
    {
        Message {
            id: self.id,
            role: self.role,
            content: clone_blocks(&self.content),
            created_at: self.created_at,
        }
    }
}

/// What each of several messages says, in order.
pub open spec fn messages_view(messages: Seq<Message>) -> Seq<MessageView> {
    messages.map_values(|message: Message| message@)
}

/// Copies messages, in order.
pub(crate) fn clone_messages(messages: &Vec<Message>) -> (copies: Vec<Message>)
    ensures
        messages_view(copies@) == messages_view(messages@),
{
    let mut copies: Vec<Message> = Vec::new();
    let n: usize = messages.len();
    for i in 0..n
        invariant
            n == messages@.len(),
            copies@.len() == i,
            forall|j: int| 0 <= j < i ==> (#[trigger] copies@[j])@ == messages@[j]@,
    {
        copies.push(messages[i].clone());
    }
    assert(messages_view(copies@) =~= messages_view(messages@));
    copies
}

/// `text` is what `from` converts into.
pub open spec fn into_text<S: Into<String>>(from: S, text: String) -> bool {
    call_ensures(<S as Into<String>>::into, (from,), text)
}

/// What `from` converts into is the same text every time.
pub open spec fn one_text<S: Into<String>>(from: S) -> bool {
    forall|a: String, b: String| #[trigger]
        into_text(from, a) && #[trigger] into_text(from, b) ==> a@ == b@
}

/// A borrowed text converts into itself.
pub proof fn str_is_one_text(from: &str)
    ensures
        one_text(from),
        forall|t: String| #[trigger] into_text(from, t) ==> t@ == from@,
{
}

/// An owned text converts into itself.
pub proof fn string_is_one_text(from: String)
    ensures
        one_text(from),
        forall|t: String| #[trigger] into_text(from, t) ==> t@ == from@,
{
}

/// The blocks of some tool calls.
pub open spec fn call_blocks(calls: Seq<(String, String, serde_json::Value)>) -> Seq<BlockView> {
    calls.map_values(
        |call: (String, String, serde_json::Value)|
            BlockView::ToolUse { id: call.0@, name: call.1@, input: value_tree(call.2) },
    )
}

/// The blocks of some replies to tool calls.
pub open spec fn reply_blocks(results: Seq<(String, String)>) -> Seq<BlockView> {
    results.map_values(
        |result: (String, String)|
            BlockView::ToolResult {
                tool_use_id: result.0@,
                content: seq![BlockView::Text { text: result.1@ }],
                is_error: false,
            },
    )
}

/// `content` is one block, with the text that `text` converts into.
pub open spec fn text_becomes<S: Into<String>>(text: S, content: Seq<BlockView>) -> bool {
    exists|t: String| #[trigger]
        into_text(text, t) && content == seq![BlockView::Text { text: t@ }]
}

/// `texts` are the calls with their ids and names converted.
pub open spec fn call_texts<S1: Into<String>, S2: Into<String>>(
    calls: Seq<(S1, S2, serde_json::Value)>,
    texts: Seq<(String, String, serde_json::Value)>,
) -> bool {
    &&& texts.len() == calls.len()
    &&& forall|i: int|
        0 <= i < texts.len() ==> into_text(calls[i].0, (#[trigger] texts[i]).0) && into_text(
            calls[i].1,
            texts[i].1,
        ) && texts[i].2 == calls[i].2
}

/// `content` is one block for each call, in order.
pub open spec fn calls_become<S1: Into<String>, S2: Into<String>>(
    calls: Seq<(S1, S2, serde_json::Value)>,
    content: Seq<BlockView>,
) -> bool {
    exists|texts: Seq<(String, String, serde_json::Value)>| #[trigger]
        call_texts(calls, texts) && content == call_blocks(texts)
}

/// `texts` are the replies with their ids and texts converted.
pub open spec fn reply_texts<S1: Into<String>, S2: Into<String>>(
    results: Seq<(S1, S2)>,
    texts: Seq<(String, String)>,
) -> bool {
    &&& texts.len() == results.len()
    &&& forall|i: int|
        0 <= i < texts.len() ==> into_text(results[i].0, (#[trigger] texts[i]).0) && into_text(
            results[i].1,
            texts[i].1,
        )
}

/// `content` is one block for each reply, in order.
pub open spec fn replies_become<S1: Into<String>, S2: Into<String>>(
    results: Seq<(S1, S2)>,
    content: Seq<BlockView>,
) -> bool {
    exists|texts: Seq<(String, String)>| #[trigger]
        reply_texts(results, texts) && content == reply_blocks(texts)
}

/// One text block.
pub(crate) fn text_block<S: Into<String>>(text: S) -> (content: Vec<ContentBlock>)
    ensures
        text_becomes(text, blocks_view(content@)),
{
    let t = text.into();
    assert(into_text(text, t));
    let content = vec![ContentBlock::Text { text: t }];
    proof {
        lemma_blocks_view(content@);
        assert(blocks_view(content@) =~= seq![BlockView::Text { text: t@ }]);
    }
    content
}

impl Message {
    /// Build a message containing a single text block.
    ///
    /// Panics where the system has no source of randomness, or where its clock
    /// is set before the Unix epoch.
    pub fn text<S: Into<String>>(role: Role, text: S) -> (message: Message)
        ensures
            random_id(message@.id) && drawn(message@.id),
            message@.role == role,
            text_becomes(text, message@.content),
            message@.created_at.valid() && message@.created_at.secs >= 0,
            message@.created_at.nanos < 1000000000,
            clock_read(message@.created_at),
    {
        let t = text.into();
        assert(into_text(text, t));
        Message::text_at(MessageId::new(), Timestamp::now(), role, t)
    }

    /// [`Message::text`] with a given id and creation time.
    pub fn text_at(id: MessageId, created_at: Timestamp, role: Role, text: String) -> (message:
        Message)
        ensures
            message@ == (MessageView {
                id: id@,
                role,
                content: seq![BlockView::Text { text: text@ }],
                created_at: created_at@,
            }),
    {
        Message { id, role, content: text_block(text), created_at }
    }

    /// Build an assistant message composed of tool calls (`tool_use` blocks).
    ///
    /// Each `(id, name, input)` triple becomes a [`ContentBlock::ToolUse`].
    ///
    /// Panics where the system has no source of randomness, or where its clock
    /// is set before the Unix epoch.
    pub fn tool_calls<S1: Into<String>, S2: Into<String>>(
        calls: Vec<(S1, S2, serde_json::Value)>,
    ) -> (message: Message)
        ensures
            random_id(message@.id) && drawn(message@.id),
            message@.role == Role::Assistant,
            calls_become(calls@, message@.content),
            message@.created_at.valid() && message@.created_at.secs >= 0,
            message@.created_at.nanos < 1000000000,
            clock_read(message@.created_at),
    {
        let mut texts: Vec<(String, String, serde_json::Value)> = Vec::new();
        for call in it: calls
            invariant
                it.seq() == calls@,
                texts@.len() == it.index(),
                forall|i: int|
                    0 <= i < texts@.len() ==> into_text(calls@[i].0, (#[trigger] texts@[i]).0)
                        && into_text(calls@[i].1, texts@[i].1) && texts@[i].2 == calls@[i].2,
        {
            let (id, name, input) = call;
            texts.push((id.into(), name.into(), input));
        }
        assert(call_texts(calls@, texts@));
        Message::tool_calls_at(MessageId::new(), Timestamp::now(), texts)
    }

    /// [`Message::tool_calls`] with a given id and creation time.
    pub fn tool_calls_at(
        id: MessageId,
        created_at: Timestamp,
        calls: Vec<(String, String, serde_json::Value)>,
    ) -> (message: Message)
        ensures
            message@ == (MessageView {
                id: id@,
                role: Role::Assistant,
                content: call_blocks(calls@),
                created_at: created_at@,
            }),
    {
        let mut content: Vec<ContentBlock> = Vec::new();
        for call in it: calls
            invariant
                it.seq() == calls@,
                content@.len() == it.index(),
                forall|i: int|
                    0 <= i < content@.len() ==> (#[trigger] content@[i])@ == call_blocks(calls@)[i],
        {
            let (id, name, input) = call;
            content.push(ContentBlock::ToolUse { id, name, input });
        }
        proof {
            lemma_blocks_view(content@);
            assert(blocks_view(content@) =~= call_blocks(calls@));
        }
        Message { id, role: Role::Assistant, content, created_at }
    }

    /// Build a tool-role message replying to a batch of previous tool calls.
    ///
    /// Each `(tool_use_id, text)` pair becomes a [`ContentBlock::ToolResult`]
    /// wrapping a single text block. For richer payloads construct
    /// [`ContentBlock::ToolResult`] manually.
    ///
    /// Panics where the system has no source of randomness, or where its clock
    /// is set before the Unix epoch.
    pub fn tool_results<S1: Into<String>, S2: Into<String>>(results: Vec<(S1, S2)>) -> (message:
        Message)
        ensures
            random_id(message@.id) && drawn(message@.id),
            message@.role == Role::Tool,
            replies_become(results@, message@.content),
            message@.created_at.valid() && message@.created_at.secs >= 0,
            message@.created_at.nanos < 1000000000,
            clock_read(message@.created_at),
    {
        let mut texts: Vec<(String, String)> = Vec::new();
        for result in it: results
            invariant
                it.seq() == results@,
                texts@.len() == it.index(),
                forall|i: int|
                    0 <= i < texts@.len() ==> into_text(results@[i].0, (#[trigger] texts@[i]).0)
                        && into_text(results@[i].1, texts@[i].1),
        {
            let (tool_use_id, text) = result;
            texts.push((tool_use_id.into(), text.into()));
        }
        assert(reply_texts(results@, texts@));
        Message::tool_results_at(MessageId::new(), Timestamp::now(), texts)
    }

    /// [`Message::tool_results`] with a given id and creation time.
    pub fn tool_results_at(
        id: MessageId,
        created_at: Timestamp,
        results: Vec<(String, String)>,
    ) -> (message: Message)
        ensures
            message@ == (MessageView {
                id: id@,
                role: Role::Tool,
                content: reply_blocks(results@),
                created_at: created_at@,
            }),
    {
        let mut content: Vec<ContentBlock> = Vec::new();
        for result in it: results
            invariant
                it.seq() == results@,
                content@.len() == it.index(),
                forall|i: int|
                    0 <= i < content@.len() ==> (#[trigger] content@[i])@ == reply_blocks(
                        results@,
                    )[i],
        {
            let (tool_use_id, text) = result;
            let reply = text_block(text);
            content.push(ContentBlock::ToolResult { tool_use_id, content: reply, is_error: false });
        }
        proof {
            lemma_blocks_view(content@);
            assert(blocks_view(content@) =~= reply_blocks(results@));
        }
        Message { id, role: Role::Tool, content, created_at }
    }
}

/// The id that a field holds, or `fill` where the field is left out.
pub open spec fn id_member(member: Member, fill: u128) -> Option<u128> {
    match member {
        Member::Given(Tree::Text(s)) => uuid_parsed(s),
        Member::Given(_) => None,
        _ => Some(fill),
    }
}

/// The time that a field holds, or `fill` where the field is left out.
pub open spec fn time_member(member: Member, fill: TimestampView) -> Option<TimestampView> {
    match member {
        Member::Given(Tree::Text(s)) => match rfc3339_parsed(s) {
            Some((secs, nanos)) => Some(TimestampView { secs, nanos }),
            None => None,
        },
        Member::Given(_) => None,
        _ => Some(fill),
    }
}

/// Reads the id of a message.
fn take_id(slot: Slot, source: &Source) -> (id: Option<MessageId>)
    ensures
        exists|fill: u128| #[trigger]
            source.gives_id(fill) && id_member(slot.member(), fill) == (match id {
                Some(id) => Some(id@),
                None => None,
            }) && (source is Fresh && !(slot.member() is Given) ==> drawn(fill)),
        forall|v: u128|
            slot.member() == Member::Given(Tree::Text(#[trigger] id_text(v))) ==> id == Some(
                MessageId(v),
            ),
{
    proof {
        source.lemma_gives();
    }
    match slot {
        Slot::Given(value) => match open_value(value) {
            Node::Text(s) => MessageId::parse(&s),
            _ => None,
        },
        _ => Some(source.id()),
    }
}

/// Reads the creation time of a message.
fn take_time(slot: Slot, source: &Source) -> (time: Option<Timestamp>)
    ensures
        exists|fill: TimestampView| #[trigger]
            source.gives_time(fill) && time_member(slot.member(), fill) == (match time {
                Some(time) => Some(time@),
                None => None,
            }) && (source is Fresh && !(slot.member() is Given) ==> clock_read(fill)),
        forall|v: TimestampView|
            #![trigger rfc3339_printed(v.secs, v.nanos)]
            slot.member() == Member::Given(Tree::Text(rfc3339_printed(v.secs, v.nanos)))
                && v.valid() ==> time is Some && time->Some_0@ == v,
{
    proof {
        source.lemma_gives();
    }
    match slot {
        Slot::Given(value) => match open_value(value) {
            Node::Text(s) => Timestamp::parse_rfc3339(&s),
            _ => None,
        },
        _ => Some(source.time()),
    }
}

impl StampedWire for Message {
    open spec fn encoded(v: MessageView) -> Tree {
        Tree::Record(
            map![
                "id"@ => Tree::Text(id_text(v.id)),
                "role"@ => Role::encoded(v.role),
                "content"@ => Tree::List(blocks_encoded(v.content)),
                "created_at"@ => Tree::Text(
                    rfc3339_printed(v.created_at.secs, v.created_at.nanos),
                ),
            ],
        )
    }

    open spec fn decoded(t: Tree, nested: bool, fill: StampView) -> Option<MessageView> {
        let id = id_member(t.member("id"@), fill.id);
        let rest = t.without("id"@);
        let role = rest.member("role"@).tree();
        let rest = rest.without("role"@);
        let content = rest.member("content"@).items();
        let rest = rest.without("content"@);
        let created_at = time_member(rest.member("created_at"@), fill.created_at);
        let rest = rest.without("created_at"@);
        match (id, role, content, created_at) {
            (Some(id), Some(role), Some(content), Some(created_at)) if rest.ends() => {
                match (Role::decoded(role, nested), blocks_decoded(content, nested)) {
                    (Some(role), Some(content)) => Some(
                        MessageView { id, role, content, created_at },
                    ),
                    _ => None,
                }
            },
            _ => None,
        }
    }

    open spec fn faithful(v: MessageView) -> bool {
        v.created_at.valid()
    }

    fn to_value(&self) -> (value: serde_json::Value) {
        let mut map = empty_map();
        map_insert(&mut map, "id", self.id.to_value());
        map_insert(&mut map, "role", self.role.to_value());
        map_insert(&mut map, "content", blocks_value(&self.content));
        map_insert(&mut map, "created_at", close_value(Node::Text(self.created_at.to_rfc3339())));
        close_value(Node::Record(map))
    }

    fn decode(value: serde_json::Value, nested: bool, source: &Source) -> (read: Result<
        Message,
        WireError,
    >) {
        proof {
            source.lemma_gives();
            lemma_message_members(value_tree(value), nested);
            if !(value_tree(value) is Record) && !(value_tree(value) is List) {
                assert(forall|fill: StampView|
                    Message::freshly_filled(value_tree(value), nested, fill));
            }
        }
        let mut fields = match Fields::open(value) {
            Some(fields) => fields,
            None => return Err(WireError::Mismatch),
        };
        let id = take_id(fields.take("id"), source);
        let role = fields.take("role").value();
        let content = fields.take("content").items();
        let created_at = take_time(fields.take("created_at"), source);
        proof {
            let t = value_tree(value);
            let last = t.without("id"@).without("role"@).without("content"@);
            let id_fill = choose|fill: u128| #[trigger]
                source.gives_id(fill) && id_member(t.member("id"@), fill) == (match id {
                    Some(id) => Some(id@),
                    None => None,
                }) && (source is Fresh && !(t.member("id"@) is Given) ==> drawn(fill));
            let time_fill = choose|fill: TimestampView| #[trigger]
                source.gives_time(fill) && time_member(last.member("created_at"@), fill) == (
                match created_at {
                    Some(time) => Some(time@),
                    None => None,
                }) && (source is Fresh && !(last.member("created_at"@) is Given) ==> clock_read(
                    fill,
                ));
            let fill = StampView { id: id_fill, created_at: time_fill };
            assert(source.gives(fill));
            assert(source is Fresh ==> Message::freshly_filled(t, nested, fill));
        }
        match (id, role, content, created_at) {
            (Some(id), Some(role), Some(content), Some(created_at)) if fields.ends() => {
                match (Role::decode(role, nested), decode_blocks(content, nested)) {
                    (Ok(role), Some(content)) => Ok(Message { id, role, content, created_at }),
                    _ => Err(WireError::Mismatch),
                }
            },
            _ => Err(WireError::Mismatch),
        }
    }
}

/// The members of a written message are read back, given that its id and its
/// creation time are.
proof fn lemma_message_members(t: Tree, nested: bool)
    ensures
        forall|v: MessageView|
            t == #[trigger] Message::encoded(v) ==> {
                let rest = t.without("id"@);
                let last = rest.without("role"@).without("content"@);
                &&& t.member("id"@) == Member::Given(Tree::Text(id_text(v.id)))
                &&& rest.member("role"@) == Member::Given(Role::encoded(v.role))
                &&& Role::decoded(Role::encoded(v.role), nested) == Some(v.role)
                &&& rest.without("role"@).member("content"@) == Member::Given(
                    Tree::List(blocks_encoded(v.content)),
                )
                &&& blocks_decoded(blocks_encoded(v.content), nested) == Some(v.content)
                &&& last.member("created_at"@) == Member::Given(
                    Tree::Text(rfc3339_printed(v.created_at.secs, v.created_at.nanos)),
                )
                &&& last.without("created_at"@).ends()
            },
{
    reveal_strlit("id");
    reveal_strlit("role");
    reveal_strlit("content");
    reveal_strlit("created_at");
    assert("id"@.len() == 2 && "role"@.len() == 4 && "content"@.len() == 7);
    assert("created_at"@.len() == 10);
    assert forall|v: MessageView| t == #[trigger] Message::encoded(v) implies Role::decoded(
        Role::encoded(v.role),
        nested,
    ) == Some(v.role) && blocks_decoded(blocks_encoded(v.content), nested) == Some(v.content) by {
        Role::round_trip(v.role, nested);
        lemma_blocks_round_trip(v.content, nested);
    }
}

/// The text of a message whose blocks fit is read back as the message was.
pub proof fn message_reprints(v: MessageView, levels: nat)
    requires
        forall|i: int|
            0 <= i < v.content.len() ==> block_fits(#[trigger] v.content[i], levels),
    ensures
        reprints(Message::encoded(v), levels + 2),
{
    reveal_with_fuel(reprints, 2);
    blocks_reprint(v.content, levels);
}

/// The blocks of two batches of calls together are those of the first and
/// then those of the second.
pub proof fn call_blocks_concatenate(
    a: Seq<(String, String, serde_json::Value)>,
    b: Seq<(String, String, serde_json::Value)>,
)
    ensures
        call_blocks(a + b) == call_blocks(a) + call_blocks(b),
{
    assert(call_blocks(a + b) =~= call_blocks(a) + call_blocks(b));
}

/// The blocks of two batches of replies together are those of the first and
/// then those of the second.
pub proof fn reply_blocks_concatenate(a: Seq<(String, String)>, b: Seq<(String, String)>)
    ensures
        reply_blocks(a + b) == reply_blocks(a) + reply_blocks(b),
{
    assert(reply_blocks(a + b) =~= reply_blocks(a) + reply_blocks(b));
}

/// [`Message::tool_calls`] on two batches together has the content that it has
/// on the first, and then that on the second.
pub proof fn tool_calls_concatenate<S1: Into<String>, S2: Into<String>>(
    a: Seq<(S1, S2, serde_json::Value)>,
    b: Seq<(S1, S2, serde_json::Value)>,
    first: Seq<BlockView>,
    second: Seq<BlockView>,
    both: Seq<BlockView>,
)
    requires
        forall|i: int|
            0 <= i < (a + b).len() ==> one_text((#[trigger] (a + b)[i]).0) && one_text(
                (a + b)[i].1,
            ),
        calls_become(a, first),
        calls_become(b, second),
        calls_become(a + b, both),
    ensures
        both == first + second,
{
    let ta = choose|t: Seq<(String, String, serde_json::Value)>| #[trigger]
        call_texts(a, t) && first == call_blocks(t);
    let tb = choose|t: Seq<(String, String, serde_json::Value)>| #[trigger]
        call_texts(b, t) && second == call_blocks(t);
    let t = choose|t: Seq<(String, String, serde_json::Value)>| #[trigger]
        call_texts(a + b, t) && both == call_blocks(t);
    assert forall|i: int| 0 <= i < t.len() implies #[trigger] call_blocks(t)[i] == (first
        + second)[i] by {
        assert(one_text((a + b)[i].0) && one_text((a + b)[i].1));
        let u = if i < a.len() {
            ta[i]
        } else {
            tb[i - a.len()]
        };
        assert(into_text((a + b)[i].0, t[i].0) && into_text((a + b)[i].0, u.0));
        assert(into_text((a + b)[i].1, t[i].1) && into_text((a + b)[i].1, u.1));
    }
    assert(both =~= first + second);
}

/// [`Message::tool_results`] on two batches together has the content that it
/// has on the first, and then that on the second: order and repeated ids are
/// kept.
pub proof fn tool_results_concatenate<S1: Into<String>, S2: Into<String>>(
    a: Seq<(S1, S2)>,
    b: Seq<(S1, S2)>,
    first: Seq<BlockView>,
    second: Seq<BlockView>,
    both: Seq<BlockView>,
)
    requires
        forall|i: int|
            0 <= i < (a + b).len() ==> one_text((#[trigger] (a + b)[i]).0) && one_text(
                (a + b)[i].1,
            ),
        replies_become(a, first),
        replies_become(b, second),
        replies_become(a + b, both),
    ensures
        both == first + second,
{
    let ta = choose|t: Seq<(String, String)>| #[trigger]
        reply_texts(a, t) && first == reply_blocks(t);
    let tb = choose|t: Seq<(String, String)>| #[trigger]
        reply_texts(b, t) && second == reply_blocks(t);
    let t = choose|t: Seq<(String, String)>| #[trigger]
        reply_texts(a + b, t) && both == reply_blocks(t);
    assert forall|i: int| 0 <= i < t.len() implies #[trigger] reply_blocks(t)[i] == (first
        + second)[i] by {
        assert(one_text((a + b)[i].0) && one_text((a + b)[i].1));
        let u = if i < a.len() {
            ta[i]
        } else {
            tb[i - a.len()]
        };
        assert(into_text((a + b)[i].0, t[i].0) && into_text((a + b)[i].0, u.0));
        assert(into_text((a + b)[i].1, t[i].1) && into_text((a + b)[i].1, u.1));
    }
    assert(both =~= first + second);
}

/// Replies to the ids of some calls, in order, echo those ids block by block.
pub proof fn replies_echo_calls<S1: Into<String>, S2: Into<String>, S3: Into<String>>(
    calls: Seq<(S1, S2, serde_json::Value)>,
    results: Seq<(S1, S3)>,
    asked: Seq<BlockView>,
    answered: Seq<BlockView>,
)
    requires
        results.len() == calls.len(),
        forall|i: int|
            0 <= i < calls.len() ==> (#[trigger] results[i]).0 == calls[i].0 && one_text(
                calls[i].0,
            ),
        calls_become(calls, asked),
        replies_become(results, answered),
    ensures
        answered.len() == asked.len(),
        forall|i: int|
            0 <= i < asked.len() ==> (#[trigger] asked[i]) is ToolUse && answered[i] is ToolResult
                && answered[i]->tool_use_id == asked[i]->id,
{
    let tc = choose|t: Seq<(String, String, serde_json::Value)>| #[trigger]
        call_texts(calls, t) && asked == call_blocks(t);
    let tr = choose|t: Seq<(String, String)>| #[trigger]
        reply_texts(results, t) && answered == reply_blocks(t);
    assert forall|i: int| 0 <= i < asked.len() implies (#[trigger] asked[i]) is ToolUse
        && answered[i] is ToolResult && answered[i]->tool_use_id == asked[i]->id by {
        assert(results[i].0 == calls[i].0 && one_text(calls[i].0));
        assert(into_text(calls[i].0, tc[i].0) && into_text(calls[i].0, tr[i].0));
    }
}

/// Two messages that [`Message::text`] makes of one role and one text agree in
/// both: only their ids and creation times may tell them apart.
pub proof fn text_messages_agree<S: Into<String>>(
    role: Role,
    text: S,
    one: MessageView,
    other: MessageView,
)
    requires
        one_text(text),
        one.role == role && text_becomes(text, one.content),
        other.role == role && text_becomes(text, other.content),
    ensures
        one.role == other.role,
        one.content == other.content,
        one == other <==> one.id == other.id && one.created_at == other.created_at,
{
    let t = choose|t: String| #[trigger]
        into_text(text, t) && one.content == seq![BlockView::Text { text: t@ }];
    let u = choose|u: String| #[trigger]
        into_text(text, u) && other.content == seq![BlockView::Text { text: u@ }];
    assert(into_text(text, t) && into_text(text, u));
}

} // verus!
