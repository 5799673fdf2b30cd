//! Content blocks and their sources on the wire, part by part.

use vstd::prelude::*;
use crate::content::{
    blocks_decoded, lemma_blocks_encoded, lemma_blocks_view, BlockView, ContentBlock,
    DocumentSource, ImageSource, SourceView,
};
use crate::json::{value_tree, Entries, Numeral, Tree};
use crate::wire::Wire;

verus! {

/// Several blocks are read exactly where each of them is, in order.
pub proof fn many_blocks_read(ts: Seq<Tree>, nested: bool, vs: Seq<BlockView>)
    ensures
        blocks_decoded(ts, nested) == Some(vs) <==> {
            &&& ts.len() == vs.len()
            &&& forall|i: int|
                0 <= i < vs.len() ==> ContentBlock::decoded(ts[i], nested) == Some(
                    #[trigger] vs[i],
                )
        },
    decreases ts.len(),
{
    if ts.len() > 0 {
        if vs.len() == ts.len() {
            many_blocks_read(ts.drop_last(), nested, vs.drop_last());
            assert(vs.drop_last().push(vs.last()) =~= vs);
            if blocks_decoded(ts, nested) == Some(vs) {
                assert(blocks_decoded(ts.drop_last(), nested)->Some_0 =~= vs.drop_last());
                assert forall|i: int| 0 <= i < vs.len() implies ContentBlock::decoded(
                    ts[i],
                    nested,
                ) == Some(#[trigger] vs[i]) by {
                    if i < vs.len() - 1 {
                        assert(vs.drop_last()[i] == vs[i]);
                    }
                }
            } else if (forall|i: int|
                0 <= i < vs.len() ==> ContentBlock::decoded(ts[i], nested) == Some(
                    #[trigger] vs[i],
                )) {
                assert(ContentBlock::decoded(ts.last(), nested) == Some(vs[vs.len() - 1]));
                assert forall|i: int| 0 <= i < vs.drop_last().len() implies ContentBlock::decoded(
                    ts.drop_last()[i],
                    nested,
                ) == Some(#[trigger] vs.drop_last()[i]) by {
                    assert(ContentBlock::decoded(ts[i], nested) == Some(vs[i]));
                }
            }
        } else if let Some(read) = blocks_decoded(ts.drop_last(), nested) {
            many_blocks_read(ts.drop_last(), nested, read);
        }
    } else {
        assert(vs.len() == 0 ==> vs =~= Seq::empty());
    }
}

/// The names differ from one another.
proof fn lemma_image_source_names()
    ensures
        "type"@.len() == 4,
        "media_type"@.len() == 10,
        "data"@.len() == 4,
        "url"@.len() == 3,
        "base64"@.len() == 6,
        "type"@[0] != "data"@[0],
{
    reveal_strlit("type");
    reveal_strlit("media_type");
    reveal_strlit("data");
    reveal_strlit("url");
    reveal_strlit("base64");
}

/// An image source is read from an object exactly where its tag names its variant and each of its
/// parts is what the member of that name holds. No other member matters.
pub proof fn image_source_read_from_object(e: Entries, nested: bool, v: SourceView)
    ensures
        ImageSource::decoded(Tree::Record(e), nested) == Some(v) <==> match v {
            SourceView::Base64 { media_type, data } => {
                &&& e.contains_key("type"@)
                &&& e["type"@] == Tree::Text("base64"@) || nested && e["type"@]
                    == Tree::Number(Numeral::Natural(0))
                &&& e.contains_key("media_type"@) && e["media_type"@] == Tree::Text(media_type)
                &&& e.contains_key("data"@) && e["data"@] == Tree::Text(data)
            },
            SourceView::Url { url } => {
                &&& e.contains_key("type"@)
                &&& e["type"@] == Tree::Text("url"@) || nested && e["type"@]
                    == Tree::Number(Numeral::Natural(1))
                &&& e.contains_key("url"@) && e["url"@] == Tree::Text(url)
            },
        },
{
    lemma_image_source_names();
}

/// An image source is read from an array exactly where its tag and its parts stand there in the
/// order of their declaration and nothing else does.
pub proof fn image_source_read_from_array(s: Seq<Tree>, nested: bool, v: SourceView)
    ensures
        ImageSource::decoded(Tree::List(s), nested) == Some(v) <==> match v {
            SourceView::Base64 { media_type, data } => {
                &&& s.len() > 0
                &&& s[0] == Tree::Text("base64"@) || nested && s[0]
                    == Tree::Number(Numeral::Natural(0))
                &&& 3 <= s.len() <= 3
                &&& s.len() > 1 && s[1] == Tree::Text(media_type)
                &&& s.len() > 2 && s[2] == Tree::Text(data)
            },
            SourceView::Url { url } => {
                &&& s.len() > 0
                &&& s[0] == Tree::Text("url"@) || nested && s[0]
                    == Tree::Number(Numeral::Natural(1))
                &&& 2 <= s.len() <= 2
                &&& s.len() > 1 && s[1] == Tree::Text(url)
            },
        },
{
    lemma_image_source_names();
}

/// An image source is read from nothing but objects and arrays.
pub proof fn image_source_read_from_nothing_else(t: Tree, nested: bool)
    requires
        !(t is Record),
        !(t is List),
    ensures
        ImageSource::decoded(t, nested) is None,
{
}

/// An image source is written as an object with its tag, whose other members hold its
/// parts, each under its name.
pub proof fn image_source_written(v: SourceView)
    ensures
        ImageSource::encoded(v) is Record,
        ({
            let e = ImageSource::encoded(v)->Record_0;
            match v {
                SourceView::Base64 { media_type, data } => {
                    &&& forall|k: Seq<char>| #[trigger]
                        e.contains_key(k) <==> {
                            ||| k == "type"@
                            ||| k == "media_type"@
                            ||| k == "data"@
                        }
                    &&& e["type"@] == Tree::Text("base64"@)
                    &&& e["media_type"@] == Tree::Text(media_type)
                    &&& e["data"@] == Tree::Text(data)
                },
                SourceView::Url { url } => {
                    &&& forall|k: Seq<char>| #[trigger]
                        e.contains_key(k) <==> {
                            ||| k == "type"@
                            ||| k == "url"@
                        }
                    &&& e["type"@] == Tree::Text("url"@)
                    &&& e["url"@] == Tree::Text(url)
                },
            }
        }),
{
    lemma_image_source_names();
}

/// The names differ from one another.
proof fn lemma_document_source_names()
    ensures
        "type"@.len() == 4,
        "media_type"@.len() == 10,
        "data"@.len() == 4,
        "url"@.len() == 3,
        "base64"@.len() == 6,
        "type"@[0] != "data"@[0],
{
    reveal_strlit("type");
    reveal_strlit("media_type");
    reveal_strlit("data");
    reveal_strlit("url");
    reveal_strlit("base64");
}

/// A document source is read from an object exactly where its tag names its variant and each of its
/// parts is what the member of that name holds. No other member matters.
pub proof fn document_source_read_from_object(e: Entries, nested: bool, v: SourceView)
    ensures
        DocumentSource::decoded(Tree::Record(e), nested) == Some(v) <==> match v {
            SourceView::Base64 { media_type, data } => {
                &&& e.contains_key("type"@)
                &&& e["type"@] == Tree::Text("base64"@) || nested && e["type"@]
                    == Tree::Number(Numeral::Natural(0))
                &&& e.contains_key("media_type"@) && e["media_type"@] == Tree::Text(media_type)
                &&& e.contains_key("data"@) && e["data"@] == Tree::Text(data)
            },
            SourceView::Url { url } => {
                &&& e.contains_key("type"@)
                &&& e["type"@] == Tree::Text("url"@) || nested && e["type"@]
                    == Tree::Number(Numeral::Natural(1))
                &&& e.contains_key("url"@) && e["url"@] == Tree::Text(url)
            },
        },
{
    lemma_document_source_names();
}

/// A document source is read from an array exactly where its tag and its parts stand there in the
/// order of their declaration and nothing else does.
pub proof fn document_source_read_from_array(s: Seq<Tree>, nested: bool, v: SourceView)
    ensures
        DocumentSource::decoded(Tree::List(s), nested) == Some(v) <==> match v {
            SourceView::Base64 { media_type, data } => {
                &&& s.len() > 0
                &&& s[0] == Tree::Text("base64"@) || nested && s[0]
                    == Tree::Number(Numeral::Natural(0))
                &&& 3 <= s.len() <= 3
                &&& s.len() > 1 && s[1] == Tree::Text(media_type)
                &&& s.len() > 2 && s[2] == Tree::Text(data)
            },
            SourceView::Url { url } => {
                &&& s.len() > 0
                &&& s[0] == Tree::Text("url"@) || nested && s[0]
                    == Tree::Number(Numeral::Natural(1))
                &&& 2 <= s.len() <= 2
                &&& s.len() > 1 && s[1] == Tree::Text(url)
            },
        },
{
    lemma_document_source_names();
}

/// A document source is read from nothing but objects and arrays.
pub proof fn document_source_read_from_nothing_else(t: Tree, nested: bool)
    requires
        !(t is Record),
        !(t is List),
    ensures
        DocumentSource::decoded(t, nested) is None,
{
}

/// A document source is written as an object with its tag, whose other members hold its
/// parts, each under its name.
pub proof fn document_source_written(v: SourceView)
    ensures
        DocumentSource::encoded(v) is Record,
        ({
            let e = DocumentSource::encoded(v)->Record_0;
            match v {
                SourceView::Base64 { media_type, data } => {
                    &&& forall|k: Seq<char>| #[trigger]
                        e.contains_key(k) <==> {
                            ||| k == "type"@
                            ||| k == "media_type"@
                            ||| k == "data"@
                        }
                    &&& e["type"@] == Tree::Text("base64"@)
                    &&& e["media_type"@] == Tree::Text(media_type)
                    &&& e["data"@] == Tree::Text(data)
                },
                SourceView::Url { url } => {
                    &&& forall|k: Seq<char>| #[trigger]
                        e.contains_key(k) <==> {
                            ||| k == "type"@
                            ||| k == "url"@
                        }
                    &&& e["type"@] == Tree::Text("url"@)
                    &&& e["url"@] == Tree::Text(url)
                },
            }
        }),
{
    lemma_document_source_names();
}

/// The names differ from one another.
proof fn lemma_block_names()
    ensures
        "type"@.len() == 4,
        "text"@.len() == 4,
        "source"@.len() == 6,
        "id"@.len() == 2,
        "name"@.len() == 4,
        "input"@.len() == 5,
        "tool_use_id"@.len() == 11,
        "content"@.len() == 7,
        "is_error"@.len() == 8,
        "value"@.len() == 5,
        "image"@.len() == 5,
        "document"@.len() == 8,
        "tool_use"@.len() == 8,
        "tool_result"@.len() == 11,
        "json"@.len() == 4,
        "type"@[1] != "text"@[1],
        "type"@[0] != "name"@[0],
        "text"@[0] != "name"@[0],
        "input"@[0] != "value"@[0],
        "text"@[0] != "json"@[0],
        "document"@[0] != "tool_use"@[0],
{
    reveal_strlit("type");
    reveal_strlit("text");
    reveal_strlit("source");
    reveal_strlit("id");
    reveal_strlit("name");
    reveal_strlit("input");
    reveal_strlit("tool_use_id");
    reveal_strlit("content");
    reveal_strlit("is_error");
    reveal_strlit("value");
    reveal_strlit("image");
    reveal_strlit("document");
    reveal_strlit("tool_use");
    reveal_strlit("tool_result");
    reveal_strlit("json");
}

/// A content block is read from an object exactly where its tag names its variant and each of its
/// parts is what the member of that name holds. No other member matters.
pub proof fn block_read_from_object(e: Entries, nested: bool, v: BlockView)
    ensures
        ContentBlock::decoded(Tree::Record(e), nested) == Some(v) <==> match v {
            BlockView::Text { text } => {
                &&& e.contains_key("type"@)
                &&& e["type"@] == Tree::Text("text"@) || nested && e["type"@]
                    == Tree::Number(Numeral::Natural(0))
                &&& e.contains_key("text"@) && e["text"@] == Tree::Text(text)
            },
            BlockView::Image { source } => {
                &&& e.contains_key("type"@)
                &&& e["type"@] == Tree::Text("image"@) || nested && e["type"@]
                    == Tree::Number(Numeral::Natural(1))
                &&& e.contains_key("source"@)
                &&& ImageSource::decoded(e["source"@], true) == Some(source)
            },
            BlockView::Document { source } => {
                &&& e.contains_key("type"@)
                &&& e["type"@] == Tree::Text("document"@) || nested && e["type"@]
                    == Tree::Number(Numeral::Natural(2))
                &&& e.contains_key("source"@)
                &&& DocumentSource::decoded(e["source"@], true) == Some(source)
            },
            BlockView::ToolUse { id, name, input } => {
                &&& e.contains_key("type"@)
                &&& e["type"@] == Tree::Text("tool_use"@) || nested && e["type"@]
                    == Tree::Number(Numeral::Natural(3))
                &&& e.contains_key("id"@) && e["id"@] == Tree::Text(id)
                &&& e.contains_key("name"@) && e["name"@] == Tree::Text(name)
                &&& e.contains_key("input"@) && e["input"@] == input
            },
            BlockView::ToolResult { tool_use_id, content, is_error } => {
                &&& e.contains_key("type"@)
                &&& e["type"@] == Tree::Text("tool_result"@) || nested && e["type"@]
                    == Tree::Number(Numeral::Natural(4))
                &&& e.contains_key("tool_use_id"@) && e["tool_use_id"@] == Tree::Text(tool_use_id)
                &&& e.contains_key("content"@)
                &&& e["content"@] is List
                &&& e["content"@]->List_0.len() == content.len()
                &&& forall|i: int|
                    0 <= i < content.len() ==> ContentBlock::decoded(e["content"@]->List_0[i], true)
                        == Some(#[trigger] content[i])
                &&& if e.contains_key("is_error"@) {
                    e["is_error"@] == Tree::Bool(is_error)
                } else {
                    !is_error
                }
            },
            BlockView::Json { value } => {
                &&& e.contains_key("type"@)
                &&& e["type"@] == Tree::Text("json"@) || nested && e["type"@]
                    == Tree::Number(Numeral::Natural(5))
                &&& e.contains_key("value"@) && e["value"@] == value
            },
        },
{
    lemma_block_names();
    if let BlockView::ToolResult { content, .. } = v {
        many_blocks_read(e["content"@]->List_0, true, content);
    }
}

/// A content block is read from an array exactly where its tag and its parts stand there in the
/// order of their declaration and nothing else does.
pub proof fn block_read_from_array(s: Seq<Tree>, nested: bool, v: BlockView)
    ensures
        ContentBlock::decoded(Tree::List(s), nested) == Some(v) <==> match v {
            BlockView::Text { text } => {
                &&& s.len() > 0
                &&& s[0] == Tree::Text("text"@) || nested && s[0]
                    == Tree::Number(Numeral::Natural(0))
                &&& 2 <= s.len() <= 2
                &&& s.len() > 1 && s[1] == Tree::Text(text)
            },
            BlockView::Image { source } => {
                &&& s.len() > 0
                &&& s[0] == Tree::Text("image"@) || nested && s[0]
                    == Tree::Number(Numeral::Natural(1))
                &&& 2 <= s.len() <= 2
                &&& s.len() > 1 && ImageSource::decoded(s[1], true) == Some(source)
            },
            BlockView::Document { source } => {
                &&& s.len() > 0
                &&& s[0] == Tree::Text("document"@) || nested && s[0]
                    == Tree::Number(Numeral::Natural(2))
                &&& 2 <= s.len() <= 2
                &&& s.len() > 1 && DocumentSource::decoded(s[1], true) == Some(source)
            },
            BlockView::ToolUse { id, name, input } => {
                &&& s.len() > 0
                &&& s[0] == Tree::Text("tool_use"@) || nested && s[0]
                    == Tree::Number(Numeral::Natural(3))
                &&& 4 <= s.len() <= 4
                &&& s.len() > 1 && s[1] == Tree::Text(id)
                &&& s.len() > 2 && s[2] == Tree::Text(name)
                &&& s.len() > 3 && s[3] == input
            },
            BlockView::ToolResult { tool_use_id, content, is_error } => {
                &&& s.len() > 0
                &&& s[0] == Tree::Text("tool_result"@) || nested && s[0]
                    == Tree::Number(Numeral::Natural(4))
                &&& 3 <= s.len() <= 4
                &&& s.len() > 1 && s[1] == Tree::Text(tool_use_id)
                &&& s.len() > 2
                &&& s[2] is List
                &&& s[2]->List_0.len() == content.len()
                &&& forall|i: int|
                    0 <= i < content.len() ==> ContentBlock::decoded(s[2]->List_0[i], true)
                        == Some(#[trigger] content[i])
                &&& if s.len() > 3 {
                    s[3] == Tree::Bool(is_error)
                } else {
                    !is_error
                }
            },
            BlockView::Json { value } => {
                &&& s.len() > 0
                &&& s[0] == Tree::Text("json"@) || nested && s[0]
                    == Tree::Number(Numeral::Natural(5))
                &&& 2 <= s.len() <= 2
                &&& s.len() > 1 && s[1] == value
            },
        },
{
    lemma_block_names();
    if let BlockView::ToolResult { content, .. } = v {
        many_blocks_read(s[2]->List_0, true, content);
    }
}

/// A content block is read from nothing but objects and arrays.
pub proof fn block_read_from_nothing_else(t: Tree, nested: bool)
    requires
        !(t is Record),
        !(t is List),
    ensures
        ContentBlock::decoded(t, nested) is None,
{
}

/// A content block is written as an object with its tag, whose other members hold its
/// parts, each under its name.
pub proof fn block_written(v: BlockView)
    ensures
        ContentBlock::encoded(v) is Record,
        ({
            let e = ContentBlock::encoded(v)->Record_0;
            match v {
                BlockView::Text { text } => {
                    &&& forall|k: Seq<char>| #[trigger]
                        e.contains_key(k) <==> {
                            ||| k == "type"@
                            ||| k == "text"@
                        }
                    &&& e["type"@] == Tree::Text("text"@)
                    &&& e["text"@] == Tree::Text(text)
                },
                BlockView::Image { source } => {
                    &&& forall|k: Seq<char>| #[trigger]
                        e.contains_key(k) <==> {
                            ||| k == "type"@
                            ||| k == "source"@
                        }
                    &&& e["type"@] == Tree::Text("image"@)
                    &&& e["source"@] == ImageSource::encoded(source)
                },
                BlockView::Document { source } => {
                    &&& forall|k: Seq<char>| #[trigger]
                        e.contains_key(k) <==> {
                            ||| k == "type"@
                            ||| k == "source"@
                        }
                    &&& e["type"@] == Tree::Text("document"@)
                    &&& e["source"@] == DocumentSource::encoded(source)
                },
                BlockView::ToolUse { id, name, input } => {
                    &&& forall|k: Seq<char>| #[trigger]
                        e.contains_key(k) <==> {
                            ||| k == "type"@
                            ||| k == "id"@
                            ||| k == "name"@
                            ||| k == "input"@
                        }
                    &&& e["type"@] == Tree::Text("tool_use"@)
                    &&& e["id"@] == Tree::Text(id)
                    &&& e["name"@] == Tree::Text(name)
                    &&& e["input"@] == input
                },
                BlockView::ToolResult { tool_use_id, content, is_error } => {
                    &&& forall|k: Seq<char>| #[trigger]
                        e.contains_key(k) <==> {
                            ||| k == "type"@
                            ||| k == "tool_use_id"@
                            ||| k == "content"@
                            ||| k == "is_error"@ && is_error
                        }
                    &&& e["type"@] == Tree::Text("tool_result"@)
                    &&& e["tool_use_id"@] == Tree::Text(tool_use_id)
                    &&& e["content"@] is List
                    &&& e["content"@]->List_0.len() == content.len()
                    &&& forall|i: int|
                        0 <= i < content.len() ==> #[trigger] e["content"@]->List_0[i]
                            == ContentBlock::encoded(content[i])
                    &&& is_error ==> e["is_error"@] == Tree::Bool(true)
                },
                BlockView::Json { value } => {
                    &&& forall|k: Seq<char>| #[trigger]
                        e.contains_key(k) <==> {
                            ||| k == "type"@
                            ||| k == "value"@
                        }
                    &&& e["type"@] == Tree::Text("json"@)
                    &&& e["value"@] == value
                },
            }
        }),
{
    lemma_block_names();
    if let BlockView::ToolResult { content, .. } = v {
        lemma_blocks_encoded(content);
    }
}

/// The views of sources hold their parts.
pub proof fn source_says(media_type: String, data: String, url: String)
    ensures
        (ImageSource::Base64 { media_type, data })@ == (SourceView::Base64 {
            media_type: media_type@,
            data: data@,
        }),
        (ImageSource::Url { url })@ == (SourceView::Url { url: url@ }),
        (DocumentSource::Base64 { media_type, data })@ == (SourceView::Base64 {
            media_type: media_type@,
            data: data@,
        }),
        (DocumentSource::Url { url })@ == (SourceView::Url { url: url@ }),
{
}

/// The view of a block holds its parts.
pub proof fn block_says(block: ContentBlock)
    ensures
        match block {
            ContentBlock::Text { text } => block@ == (BlockView::Text { text: text@ }),
            ContentBlock::Image { source } => block@ == (BlockView::Image { source: source@ }),
            ContentBlock::Document { source } => block@ == (BlockView::Document {
                source: source@,
            }),
            ContentBlock::ToolUse { id, name, input } => block@ == (BlockView::ToolUse {
                id: id@,
                name: name@,
                input: value_tree(input),
            }),
            ContentBlock::ToolResult { tool_use_id, content, is_error } => {
                &&& block@ is ToolResult
                &&& block@->tool_use_id == tool_use_id@
                &&& block@->is_error == is_error
                &&& block@->content.len() == content@.len()
                &&& forall|i: int|
                    0 <= i < content@.len() ==> #[trigger] block@->content[i] == content@[i]@
            },
            ContentBlock::Json { value } => block@ == (BlockView::Json {
                value: value_tree(value),
            }),
        },
{
    if let ContentBlock::ToolResult { content, .. } = block {
        lemma_blocks_view(content@);
    }
}

} // verus!
