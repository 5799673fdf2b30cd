//! Tool **data types** (no trait).
//!
//! The `Tool` trait itself lives elsewhere in the stack. Only the wire-format
//! types that the other primitives (hooks, permission contexts, events) need
//! to reference live here:
//!
//! - [`ToolCall`]: assistant-side request to invoke a tool.
//! - [`ToolResult`]: tool-side reply to a [`ToolCall`].
//! - [`ToolAnnotations`]: capability metadata declared by a tool, read by
//!   [`PermissionPolicy`](crate::permission::PermissionPolicy).

use vstd::prelude::*;
use crate::content::{
    block_encoded, block_fits, blocks_decoded, blocks_encoded, blocks_reprint, blocks_value,
    blocks_view, clone_blocks, decode_blocks, lemma_blocks_round_trip, BlockView, ContentBlock,
};
use crate::json::{
    close_value, empty_map, map_insert, nesting_limit, reprints, value_tree, Entries, Node, Tree,
};
use crate::message::{
    into_text, one_text, replies_become, reply_blocks, reply_texts, text_becomes, text_block,
};
use crate::wire::{flag_value, text_value, Fields, Wire, WireError};

verus! {

/// An assistant-issued request to invoke a named tool.
///
/// Mirrors [`ContentBlock::ToolUse`] as a stand-alone wire type, for an event
/// stream that emits "the model just asked for this tool call" without quoting
/// the whole content block.
#[derive(Debug, PartialEq)]
pub struct ToolCall {
    /// Provider-assigned id, unique within the conversation. Echoed back
    /// in the matching [`ToolResult::tool_use_id`].
    pub id: String,
    /// Registered tool name. Must match a tool the executing harness has
    /// declared, otherwise the call is rejected before dispatch.
    pub name: String,
    /// JSON arguments. The tool's input schema decides the shape; this
    /// crate is schema-agnostic.
    pub input: serde_json::Value,
}

/// What a [`ToolCall`] says.
pub struct CallView {
    pub id: Seq<char>,
    pub name: Seq<char>,
    pub input: Tree,
}

impl View for ToolCall {
    type V = CallView;

    open spec fn view(&self) -> CallView {
        CallView { id: self.id@, name: self.name@, input: value_tree(self.input) }
    }
}

impl Clone for ToolCall {
    fn clone(&self) -> (copy: ToolCall)
        ensures
            copy@ == self@,
    {
        ToolCall { id: self.id.clone(), name: self.name.clone(), input: self.input.clone() }
    }
}

/// The members that a call is written with.
pub open spec fn call_entries(v: CallView) -> Entries {
    map![
        "id"@ => Tree::Text(v.id),
        "name"@ => Tree::Text(v.name),
        "input"@ => v.input,
    ]
}

impl Wire for ToolCall {
    open spec fn encoded(v: CallView) -> Tree {
        Tree::Record(call_entries(v))
    }

    open spec fn decoded(t: Tree, nested: bool) -> Option<CallView> {
        let id = t.member("id"@).text();
        let rest = t.without("id"@);
        let name = rest.member("name"@).text();
        let rest = rest.without("name"@);
        let input = rest.member("input"@).tree();
        let rest = rest.without("input"@);
        match (id, name, input) {
            (Some(id), Some(name), Some(input)) if rest.ends() => Some(
                CallView { id, name, input },
            ),
            _ => None,
        }
    }

    open spec fn faithful(v: CallView) -> bool {
        true
    }

    proof fn round_trip(v: CallView, nested: bool) {
        reveal_strlit("id");
        reveal_strlit("name");
        reveal_strlit("input");
        assert("id"@.len() == 2 && "name"@.len() == 4 && "input"@.len() == 5);
    }

    fn to_value(&self) -> (value: serde_json::Value) {
        let mut map = empty_map();
        map_insert(&mut map, "id", text_value(&self.id));
        map_insert(&mut map, "name", text_value(&self.name));
        map_insert(&mut map, "input", self.input.clone());
        close_value(Node::Record(map))
    }

    fn decode(value: serde_json::Value, nested: bool) -> (read: Result<ToolCall, WireError>) {
        let mut fields = match Fields::open(value) {
            Some(fields) => fields,
            None => return Err(WireError::Mismatch),
        };
        let id = fields.take("id").text();
        let name = fields.take("name").text();
        let input = fields.take("input").value();
        match (id, name, input) {
            (Some(id), Some(name), Some(input)) if fields.ends() => Ok(
                ToolCall { id, name, input },
            ),
            _ => Err(WireError::Mismatch),
        }
    }
}

/// The reply pairing for a [`ToolCall`].
///
/// Always carries at least one [`ContentBlock`] of `content`
/// ([`ResultView::carries_content`]), as [`ToolResult::text`] and
/// [`ToolResult::error`] build it. A document with an empty list is read all the
/// same. If `is_error` is `true` the model should treat `content` as a
/// diagnostic message rather than a normal result.
#[derive(Debug, PartialEq)]
pub struct ToolResult {
    /// The `id` from the originating [`ToolCall`].
    pub tool_use_id: String,
    /// One or more content blocks describing the outcome. Typically a
    /// single [`ContentBlock::Text`].
    pub content: Vec<ContentBlock>,
    /// `true` if the tool failed (timeout, validation error, ...).
    pub is_error: bool,
}

/// What a [`ToolResult`] says.
pub struct ResultView {
    pub tool_use_id: Seq<char>,
    pub content: Seq<BlockView>,
    pub is_error: bool,
}

impl ResultView {
    /// There is a block to show to the model.
    pub open spec fn carries_content(self) -> bool {
        self.content.len() >= 1
    }
}

/// `result` has one block, with what `tool_use_id` and `text` convert into, and
/// the given flag.
pub open spec fn result_becomes<S1: Into<String>, S2: Into<String>>(
    tool_use_id: S1,
    text: S2,
    is_error: bool,
    result: ResultView,
) -> bool {
    exists|id: String| #[trigger]
        into_text(tool_use_id, id) && result.tool_use_id == id@ && text_becomes(
            text,
            result.content,
        ) && result.is_error == is_error
}

impl View for ToolResult {
    type V = ResultView;

    open spec fn view(&self) -> ResultView {
        ResultView {
            tool_use_id: self.tool_use_id@,
            content: blocks_view(self.content@),
            is_error: self.is_error,
        }
    }
}

impl Clone for ToolResult {
    fn clone(&self) -> (copy: ToolResult)
        ensures
            copy@ == self@,
    {
        ToolResult {
            tool_use_id: self.tool_use_id.clone(),
            content: clone_blocks(&self.content),
            is_error: self.is_error,
        }
    }
}

/// Whether `b` is `false`: such a flag is not written.
pub fn is_false(b: &bool) -> (answer: bool)
    ensures
        answer == !*b,
{
    !*b
}

/// The members that a result is written with.
pub open spec fn result_entries(v: ResultView) -> Entries {
    let entries = map![
        "tool_use_id"@ => Tree::Text(v.tool_use_id),
        "content"@ => Tree::List(blocks_encoded(v.content)),
    ];
    if v.is_error {
        entries.insert("is_error"@, Tree::Bool(true))
    } else {
        entries
    }
}

impl Wire for ToolResult {
    open spec fn encoded(v: ResultView) -> Tree {
        Tree::Record(result_entries(v))
    }

    open spec fn decoded(t: Tree, nested: bool) -> Option<ResultView> {
        let tool_use_id = t.member("tool_use_id"@).text();
        let rest = t.without("tool_use_id"@);
        let content = rest.member("content"@).items();
        let rest = rest.without("content"@);
        let is_error = rest.member("is_error"@).flag();
        let rest = rest.without("is_error"@);
        match (tool_use_id, content, is_error) {
            (Some(tool_use_id), Some(content), Some(is_error)) if rest.ends() => {
                match blocks_decoded(content, nested) {
                    Some(content) => Some(ResultView { tool_use_id, content, is_error }),
                    None => None,
                }
            },
            _ => None,
        }
    }

    open spec fn faithful(v: ResultView) -> bool {
        true
    }

    proof fn round_trip(v: ResultView, nested: bool) {
        reveal_strlit("tool_use_id");
        reveal_strlit("content");
        reveal_strlit("is_error");
        assert("tool_use_id"@.len() == 11 && "content"@.len() == 7 && "is_error"@.len() == 8);
        lemma_blocks_round_trip(v.content, nested);
    }

    fn to_value(&self) -> (value: serde_json::Value) {
        let mut map = empty_map();
        map_insert(&mut map, "tool_use_id", text_value(&self.tool_use_id));
        map_insert(&mut map, "content", blocks_value(&self.content));
        if !is_false(&self.is_error) {
            map_insert(&mut map, "is_error", flag_value(self.is_error));
        }
        close_value(Node::Record(map))
    }

    fn decode(value: serde_json::Value, nested: bool) -> (read: Result<ToolResult, WireError>) {
        let mut fields = match Fields::open(value) {
            Some(fields) => fields,
            None => return Err(WireError::Mismatch),
        };
        let tool_use_id = fields.take("tool_use_id").text();
        let content = fields.take("content").items();
        let is_error = fields.take("is_error").flag();
        match (tool_use_id, content, is_error) {
            (Some(tool_use_id), Some(content), Some(is_error)) if fields.ends() => {
                match decode_blocks(content, nested) {
                    Some(content) => Ok(ToolResult { tool_use_id, content, is_error }),
                    None => Err(WireError::Mismatch),
                }
            },
            _ => Err(WireError::Mismatch),
        }
    }
}

impl ToolResult {
    /// Build a successful single-text result.
    pub fn text<S1: Into<String>, S2: Into<String>>(tool_use_id: S1, text: S2) -> (result:
        ToolResult)
        ensures
            result_becomes(tool_use_id, text, false, result@),
            result@.carries_content(),
    {
        let id = tool_use_id.into();
        assert(into_text(tool_use_id, id));
        ToolResult { tool_use_id: id, content: text_block(text), is_error: false }
    }

    /// Build an error result with a diagnostic message.
    pub fn error<S1: Into<String>, S2: Into<String>>(tool_use_id: S1, message: S2) -> (result:
        ToolResult)
        ensures
            result_becomes(tool_use_id, message, true, result@),
            result@.carries_content(),
    {
        let id = tool_use_id.into();
        assert(into_text(tool_use_id, id));
        ToolResult { tool_use_id: id, content: text_block(message), is_error: true }
    }
}

/// Capability metadata a tool publishes about itself.
///
/// Read by [`PermissionPolicy`](crate::permission::PermissionPolicy) and by
/// downstream UIs that surface "this action will..." warnings before executing
/// a tool call.
///
/// # Annotate `destructive` accurately
///
/// Tool authors **must** set [`destructive`](Self::destructive) honestly.
/// Under [`PermissionMode::Plan`](crate::permission::PermissionMode::Plan) the
/// framework allows tools with `destructive: false` to run **even when
/// `network_access: true`**, so that plan-mode agents can read documentation
/// and browse while drafting a plan. A tool that performs a network mutation
/// but is declared with `destructive: false` will run in plan mode. If a tool
/// mutates **anything** the user cares about (local files, remote state, money,
/// persistent data), set `destructive: true`; when unsure, too.
#[derive(Debug, Clone, Copy, PartialEq, Eq, Structural)]
pub struct ToolAnnotations {
    /// `true` if the tool only reads state; never writes anywhere.
    pub read_only: bool,
    /// `true` if the tool can mutate state the user would care about
    /// (local files, remote APIs that change resources, money, ...).
    pub destructive: bool,
    /// `true` if the tool makes outbound network calls. Independent from
    /// `destructive`: a read-only HTTP GET only has this flag; a
    /// `POST /orders` has both.
    pub network_access: bool,
    /// `true` if the tool may be re-invoked with the same input and is
    /// expected to produce the same result without additional side effects.
    /// Hint for caching and retry logic; not enforced.
    pub idempotent: bool,
}

impl View for ToolAnnotations {
    type V = ToolAnnotations;

    open spec fn view(&self) -> ToolAnnotations {
        *self
    }
}

impl Default for ToolAnnotations {
    /// The maximally cautious default: nothing claimed, treated as if it
    /// could do anything.
    fn default() -> (annotations: ToolAnnotations)
        ensures
            annotations == (ToolAnnotations {
                read_only: false,
                destructive: false,
                network_access: false,
                idempotent: false,
            }),
    {
        ToolAnnotations {
            read_only: false,
            destructive: false,
            network_access: false,
            idempotent: false,
        }
    }
}

impl Wire for ToolAnnotations {
    open spec fn encoded(v: ToolAnnotations) -> Tree {
        Tree::Record(
            map![
                "read_only"@ => Tree::Bool(v.read_only),
                "destructive"@ => Tree::Bool(v.destructive),
                "network_access"@ => Tree::Bool(v.network_access),
                "idempotent"@ => Tree::Bool(v.idempotent),
            ],
        )
    }

    open spec fn decoded(t: Tree, nested: bool) -> Option<ToolAnnotations> {
        let read_only = t.member("read_only"@).flag();
        let rest = t.without("read_only"@);
        let destructive = rest.member("destructive"@).flag();
        let rest = rest.without("destructive"@);
        let network_access = rest.member("network_access"@).flag();
        let rest = rest.without("network_access"@);
        let idempotent = rest.member("idempotent"@).flag();
        let rest = rest.without("idempotent"@);
        match (read_only, destructive, network_access, idempotent) {
            (
                Some(read_only),
                Some(destructive),
                Some(network_access),
                Some(idempotent),
            ) if rest.ends() => Some(
                ToolAnnotations { read_only, destructive, network_access, idempotent },
            ),
            _ => None,
        }
    }

    open spec fn faithful(v: ToolAnnotations) -> bool {
        true
    }

    proof fn round_trip(v: ToolAnnotations, nested: bool) {
        reveal_strlit("read_only");
        reveal_strlit("destructive");
        reveal_strlit("network_access");
        reveal_strlit("idempotent");
        assert("read_only"@.len() == 9 && "destructive"@.len() == 11);
        assert("network_access"@.len() == 14 && "idempotent"@.len() == 10);
    }

    fn to_value(&self) -> (value: serde_json::Value) {
        let mut map = empty_map();
        map_insert(&mut map, "read_only", flag_value(self.read_only));
        map_insert(&mut map, "destructive", flag_value(self.destructive));
        map_insert(&mut map, "network_access", flag_value(self.network_access));
        map_insert(&mut map, "idempotent", flag_value(self.idempotent));
        close_value(Node::Record(map))
    }

    fn decode(value: serde_json::Value, nested: bool) -> (read: Result<
        ToolAnnotations,
        WireError,
    >) {
        let mut fields = match Fields::open(value) {
            Some(fields) => fields,
            None => return Err(WireError::Mismatch),
        };
        let read_only = fields.take("read_only").flag();
        let destructive = fields.take("destructive").flag();
        let network_access = fields.take("network_access").flag();
        let idempotent = fields.take("idempotent").flag();
        match (read_only, destructive, network_access, idempotent) {
            (
                Some(read_only),
                Some(destructive),
                Some(network_access),
                Some(idempotent),
            ) if fields.ends() => Ok(
                ToolAnnotations { read_only, destructive, network_access, idempotent },
            ),
            _ => Err(WireError::Mismatch),
        }
    }
}

/// A [`ContentBlock::ToolUse`] has the shape of the [`ToolCall`] with the same
/// content, and a tag.
pub proof fn tool_use_mirrors_tool_call(v: CallView)
    ensures
        block_encoded(BlockView::ToolUse { id: v.id, name: v.name, input: v.input })
            == Tree::Record(call_entries(v).insert("type"@, Tree::Text("tool_use"@))),
{
    reveal_strlit("type");
    reveal_strlit("id");
    reveal_strlit("name");
    reveal_strlit("input");
    assert("type"@.len() == 4 && "name"@.len() == 4 && "type"@[0] != "name"@[0]);
    assert("id"@.len() == 2 && "input"@.len() == 5);
    assert(map![
        "type"@ => Tree::Text("tool_use"@),
        "id"@ => Tree::Text(v.id),
        "name"@ => Tree::Text(v.name),
        "input"@ => v.input,
    ] =~= call_entries(v).insert("type"@, Tree::Text("tool_use"@)));
}

/// A [`ContentBlock::ToolResult`] has the shape of the [`ToolResult`] with the
/// same content, and a tag.
pub proof fn tool_result_block_mirrors_tool_result(v: ResultView)
    ensures
        block_encoded(
            BlockView::ToolResult {
                tool_use_id: v.tool_use_id,
                content: v.content,
                is_error: v.is_error,
            },
        ) == Tree::Record(result_entries(v).insert("type"@, Tree::Text("tool_result"@))),
{
    reveal_strlit("type");
    reveal_strlit("tool_use_id");
    reveal_strlit("content");
    reveal_strlit("is_error");
    assert("type"@.len() == 4 && "tool_use_id"@.len() == 11);
    assert("content"@.len() == 7 && "is_error"@.len() == 8);
    let block = block_encoded(
        BlockView::ToolResult {
            tool_use_id: v.tool_use_id,
            content: v.content,
            is_error: v.is_error,
        },
    );
    assert(block->Record_0 =~= result_entries(v).insert("type"@, Tree::Text("tool_result"@)));
}

/// The error flag of a result is written exactly where it is set.
pub proof fn error_flag_written_when_set(v: ResultView)
    ensures
        result_entries(v).contains_key("is_error"@) <==> v.is_error,
        v.is_error ==> result_entries(v)["is_error"@] == Tree::Bool(true),
{
    reveal_strlit("tool_use_id");
    reveal_strlit("content");
    reveal_strlit("is_error");
    assert("tool_use_id"@.len() == 11 && "content"@.len() == 7 && "is_error"@.len() == 8);
}

/// The text of a call whose input reprints is read back as the call was.
pub proof fn call_reprints(v: CallView, levels: nat)
    requires
        reprints(v.input, levels),
    ensures
        reprints(ToolCall::encoded(v), levels + 1),
{
    reveal_with_fuel(reprints, 2);
}

/// The text of a result whose blocks fit is read back as the result was.
pub proof fn result_reprints(v: ResultView, levels: nat)
    requires
        forall|i: int|
            0 <= i < v.content.len() ==> block_fits(#[trigger] v.content[i], levels),
    ensures
        reprints(ToolResult::encoded(v), levels + 2),
{
    reveal_with_fuel(reprints, 2);
    blocks_reprint(v.content, levels);
}

/// The text of annotations is read back as they were.
pub proof fn annotations_reprint(v: ToolAnnotations)
    ensures
        reprints(ToolAnnotations::encoded(v), nesting_limit()),
{
    reveal_with_fuel(reprints, 2);
}

/// [`ToolResult::text`] and [`ToolResult::error`] on the same arguments differ
/// in the error flag alone.
pub proof fn text_and_error_differ_in_flag<S1: Into<String>, S2: Into<String>>(
    tool_use_id: S1,
    text: S2,
    good: ResultView,
    bad: ResultView,
)
    requires
        one_text(tool_use_id),
        one_text(text),
        result_becomes(tool_use_id, text, false, good),
        result_becomes(tool_use_id, text, true, bad),
    ensures
        bad.tool_use_id == good.tool_use_id,
        bad.content == good.content,
        bad.is_error && !good.is_error,
        bad != good,
{
    let t = choose|t: String| #[trigger]
        into_text(text, t) && good.content == seq![BlockView::Text { text: t@ }];
    let u = choose|u: String| #[trigger]
        into_text(text, u) && bad.content == seq![BlockView::Text { text: u@ }];
    assert(into_text(text, t) && into_text(text, u));
}

/// Each block of [`Message::tool_results`](crate::message::Message::tool_results)
/// has the parts of [`ToolResult::text`] on that pair.
pub proof fn replies_are_text_results<S1: Into<String>, S2: Into<String>>(
    results: Seq<(S1, S2)>,
    content: Seq<BlockView>,
    i: int,
    result: ResultView,
)
    requires
        0 <= i < results.len(),
        one_text(results[i].0),
        one_text(results[i].1),
        replies_become(results, content),
        result_becomes(results[i].0, results[i].1, false, result),
    ensures
        content.len() == results.len(),
        content[i] == (BlockView::ToolResult {
            tool_use_id: result.tool_use_id,
            content: result.content,
            is_error: result.is_error,
        }),
{
    let texts = choose|t: Seq<(String, String)>| #[trigger]
        reply_texts(results, t) && content == reply_blocks(t);
    let t = choose|t: String| #[trigger]
        into_text(results[i].1, t) && result.content == seq![BlockView::Text { text: t@ }];
    assert(into_text(results[i].0, texts[i].0));
    assert(into_text(results[i].1, texts[i].1) && into_text(results[i].1, t));
}

} // verus!
