//! Tool calls, results and annotations on the wire, part by part.

use vstd::prelude::*;
use crate::content::{lemma_blocks_encoded, lemma_blocks_view, BlockView, ContentBlock};
use crate::json::{value_tree, Entries, Tree};
use crate::laws::content::many_blocks_read;
use crate::message::into_text;
use crate::tool::{result_becomes, CallView, ResultView, ToolAnnotations, ToolCall, ToolResult};
use crate::wire::Wire;

verus! {

/// The names differ from one another.
proof fn lemma_call_names()
    ensures
        "id"@.len() == 2,
        "name"@.len() == 4,
        "input"@.len() == 5,
{
    reveal_strlit("id");
    reveal_strlit("name");
    reveal_strlit("input");
}

/// A tool call is read from an object exactly where each of its parts is what the
/// member of that name holds. No other member matters.
pub proof fn call_read_from_object(e: Entries, nested: bool, v: CallView)
    ensures
        ToolCall::decoded(Tree::Record(e), nested) == Some(v) <==> {
            &&& e.contains_key("id"@) && e["id"@] == Tree::Text(v.id)
            &&& e.contains_key("name"@) && e["name"@] == Tree::Text(v.name)
            &&& e.contains_key("input"@) && e["input"@] == v.input
        },
{
    lemma_call_names();
}

/// A tool call is read from an array exactly where its parts stand there in the
/// order of their declaration and nothing else does.
pub proof fn call_read_from_array(s: Seq<Tree>, nested: bool, v: CallView)
    ensures
        ToolCall::decoded(Tree::List(s), nested) == Some(v) <==> {
            &&& 3 <= s.len() <= 3
            &&& s.len() > 0 && s[0] == Tree::Text(v.id)
            &&& s.len() > 1 && s[1] == Tree::Text(v.name)
            &&& s.len() > 2 && s[2] == v.input
        },
{
    lemma_call_names();
}

/// A tool call is read from nothing but objects and arrays.
pub proof fn call_read_from_nothing_else(t: Tree, nested: bool)
    requires
        !(t is Record),
        !(t is List),
    ensures
        ToolCall::decoded(t, nested) is None,
{
}

/// A tool call is written as an object whose members hold its parts, each under
/// its name.
pub proof fn call_written(v: CallView)
    ensures
        ToolCall::encoded(v) is Record,
        ({
            let e = ToolCall::encoded(v)->Record_0;
            &&& forall|k: Seq<char>| #[trigger]
                e.contains_key(k) <==> {
                    ||| k == "id"@
                    ||| k == "name"@
                    ||| k == "input"@
                }
            &&& e["id"@] == Tree::Text(v.id)
            &&& e["name"@] == Tree::Text(v.name)
            &&& e["input"@] == v.input
        }),
{
    lemma_call_names();
}

/// The names differ from one another.
proof fn lemma_annotations_names()
    ensures
        "read_only"@.len() == 9,
        "destructive"@.len() == 11,
        "network_access"@.len() == 14,
        "idempotent"@.len() == 10,
{
    reveal_strlit("read_only");
    reveal_strlit("destructive");
    reveal_strlit("network_access");
    reveal_strlit("idempotent");
}

/// A set of annotations is read from an object exactly where each of its parts is what the
/// member of that name holds. No other member matters.
pub proof fn annotations_read_from_object(e: Entries, nested: bool, v: ToolAnnotations)
    ensures
        ToolAnnotations::decoded(Tree::Record(e), nested) == Some(v) <==> {
            &&& if e.contains_key("read_only"@) {
                e["read_only"@] == Tree::Bool(v.read_only)
            } else {
                !v.read_only
            }
            &&& if e.contains_key("destructive"@) {
                e["destructive"@] == Tree::Bool(v.destructive)
            } else {
                !v.destructive
            }
            &&& if e.contains_key("network_access"@) {
                e["network_access"@] == Tree::Bool(v.network_access)
            } else {
                !v.network_access
            }
            &&& if e.contains_key("idempotent"@) {
                e["idempotent"@] == Tree::Bool(v.idempotent)
            } else {
                !v.idempotent
            }
        },
{
    lemma_annotations_names();
}

/// A set of annotations is read from an array exactly where its parts stand there in the
/// order of their declaration and nothing else does.
pub proof fn annotations_read_from_array(s: Seq<Tree>, nested: bool, v: ToolAnnotations)
    ensures
        ToolAnnotations::decoded(Tree::List(s), nested) == Some(v) <==> {
            &&& 0 <= s.len() <= 4
            &&& if s.len() > 0 {
                s[0] == Tree::Bool(v.read_only)
            } else {
                !v.read_only
            }
            &&& if s.len() > 1 {
                s[1] == Tree::Bool(v.destructive)
            } else {
                !v.destructive
            }
            &&& if s.len() > 2 {
                s[2] == Tree::Bool(v.network_access)
            } else {
                !v.network_access
            }
            &&& if s.len() > 3 {
                s[3] == Tree::Bool(v.idempotent)
            } else {
                !v.idempotent
            }
        },
{
    lemma_annotations_names();
}

/// A set of annotations is read from nothing but objects and arrays.
pub proof fn annotations_read_from_nothing_else(t: Tree, nested: bool)
    requires
        !(t is Record),
        !(t is List),
    ensures
        ToolAnnotations::decoded(t, nested) is None,
{
}

/// A set of annotations is written as an object whose members hold its parts, each under
/// its name.
pub proof fn annotations_written(v: ToolAnnotations)
    ensures
        ToolAnnotations::encoded(v) is Record,
        ({
            let e = ToolAnnotations::encoded(v)->Record_0;
            &&& forall|k: Seq<char>| #[trigger]
                e.contains_key(k) <==> {
                    ||| k == "read_only"@
                    ||| k == "destructive"@
                    ||| k == "network_access"@
                    ||| k == "idempotent"@
                }
            &&& e["read_only"@] == Tree::Bool(v.read_only)
            &&& e["destructive"@] == Tree::Bool(v.destructive)
            &&& e["network_access"@] == Tree::Bool(v.network_access)
            &&& e["idempotent"@] == Tree::Bool(v.idempotent)
        }),
{
    lemma_annotations_names();
}

/// The names differ from one another.
proof fn lemma_result_names()
    ensures
        "tool_use_id"@.len() == 11,
        "content"@.len() == 7,
        "is_error"@.len() == 8,
{
    reveal_strlit("tool_use_id");
    reveal_strlit("content");
    reveal_strlit("is_error");
}

/// A tool result is read from an object exactly where each of its parts is what the
/// member of that name holds. No other member matters.
pub proof fn result_read_from_object(e: Entries, nested: bool, v: ResultView)
    ensures
        ToolResult::decoded(Tree::Record(e), nested) == Some(v) <==> {
            &&& e.contains_key("tool_use_id"@) && e["tool_use_id"@] == Tree::Text(v.tool_use_id)
            &&& e.contains_key("content"@)
            &&& e["content"@] is List
            &&& e["content"@]->List_0.len() == v.content.len()
            &&& forall|i: int|
                0 <= i < v.content.len() ==> ContentBlock::decoded(e["content"@]->List_0[i], nested)
                    == Some(#[trigger] v.content[i])
            &&& if e.contains_key("is_error"@) {
                e["is_error"@] == Tree::Bool(v.is_error)
            } else {
                !v.is_error
            }
        },
{
    lemma_result_names();
    many_blocks_read(e["content"@]->List_0, nested, v.content);
}

/// A tool result is read from an array exactly where its parts stand there in the
/// order of their declaration and nothing else does.
pub proof fn result_read_from_array(s: Seq<Tree>, nested: bool, v: ResultView)
    ensures
        ToolResult::decoded(Tree::List(s), nested) == Some(v) <==> {
            &&& 2 <= s.len() <= 3
            &&& s.len() > 0 && s[0] == Tree::Text(v.tool_use_id)
            &&& s.len() > 1
            &&& s[1] is List
            &&& s[1]->List_0.len() == v.content.len()
            &&& forall|i: int|
                0 <= i < v.content.len() ==> ContentBlock::decoded(s[1]->List_0[i], nested)
                    == Some(#[trigger] v.content[i])
            &&& if s.len() > 2 {
                s[2] == Tree::Bool(v.is_error)
            } else {
                !v.is_error
            }
        },
{
    lemma_result_names();
    many_blocks_read(s[1]->List_0, nested, v.content);
}

/// A tool result is read from nothing but objects and arrays.
pub proof fn result_read_from_nothing_else(t: Tree, nested: bool)
    requires
        !(t is Record),
        !(t is List),
    ensures
        ToolResult::decoded(t, nested) is None,
{
}

/// A tool result is written as an object whose members hold its parts, each under
/// its name.
pub proof fn result_written(v: ResultView)
    ensures
        ToolResult::encoded(v) is Record,
        ({
            let e = ToolResult::encoded(v)->Record_0;
            &&& forall|k: Seq<char>| #[trigger]
                e.contains_key(k) <==> {
                    ||| k == "tool_use_id"@
                    ||| k == "content"@
                    ||| k == "is_error"@ && v.is_error
                }
            &&& e["tool_use_id"@] == Tree::Text(v.tool_use_id)
            &&& e["content"@] is List
            &&& e["content"@]->List_0.len() == v.content.len()
            &&& forall|i: int|
                0 <= i < v.content.len() ==> #[trigger] e["content"@]->List_0[i]
                    == ContentBlock::encoded(v.content[i])
            &&& v.is_error ==> e["is_error"@] == Tree::Bool(true)
        }),
{
    lemma_result_names();
    lemma_blocks_encoded(v.content);
}

/// The views of calls, results and annotations hold their parts.
pub proof fn tool_says(call: ToolCall, result: ToolResult, annotations: ToolAnnotations)
    ensures
        call@.id == call.id@,
        call@.name == call.name@,
        call@.input == value_tree(call.input),
        result@.tool_use_id == result.tool_use_id@,
        result@.content.len() == result.content@.len(),
        forall|i: int|
            0 <= i < result.content@.len() ==> #[trigger] result@.content[i]
                == result.content@[i]@,
        result@.is_error == result.is_error,
        annotations@ == annotations,
{
    lemma_blocks_view(result.content@);
}

/// A result that is built has the id, one block with the text, and the flag.
pub proof fn built_result<S1: Into<String>, S2: Into<String>>(
    tool_use_id: S1,
    text: S2,
    is_error: bool,
    result: ResultView,
)
    requires
        result_becomes(tool_use_id, text, is_error, result),
    ensures
        exists|id: String, t: String| #[trigger]
            into_text(tool_use_id, id) && #[trigger] into_text(text, t) && result == (ResultView {
                tool_use_id: id@,
                content: seq![BlockView::Text { text: t@ }],
                is_error,
            }),
{
    let id = choose|id: String| #[trigger]
        into_text(tool_use_id, id) && result.tool_use_id == id@;
    let t = choose|t: String| #[trigger]
        into_text(text, t) && result.content == seq![BlockView::Text { text: t@ }];
    assert(into_text(tool_use_id, id) && into_text(text, t));
}

} // verus!
