//! Multimodal content: the blocks that a message is made of.

use vstd::prelude::*;
use crate::json::{close_value, empty_map, map_insert, reprints, trees, value_tree, Node, Tree};
use crate::message::is_false;
use crate::wire::{flag_value, text_value, Fields, Member, Tag, Wire, WireError};

verus! {

/// What an [`ImageSource`] or a [`DocumentSource`] says.
pub enum SourceView {
    Base64 { media_type: Seq<char>, data: Seq<char> },
    Url { url: Seq<char> },
}

/// The document that a source is written as.
pub open spec fn source_encoded(v: SourceView) -> Tree {
    match v {
        SourceView::Base64 { media_type, data } => Tree::Record(
            map![
                "type"@ => Tree::Text("base64"@),
                "media_type"@ => Tree::Text(media_type),
                "data"@ => Tree::Text(data),
            ],
        ),
        SourceView::Url { url } => Tree::Record(
            map!["type"@ => Tree::Text("url"@), "url"@ => Tree::Text(url)],
        ),
    }
}

/// The source that is read from a document.
pub open spec fn source_decoded(t: Tree, nested: bool) -> Option<SourceView> {
    let tag = t.member("type"@);
    let rest = t.without("type"@);
    if tag.tags(nested, 0, "base64"@) {
        let media_type = rest.member("media_type"@).text();
        let rest = rest.without("media_type"@);
        let data = rest.member("data"@).text();
        let rest = rest.without("data"@);
        match (media_type, data) {
            (Some(media_type), Some(data)) if rest.ends() => Some(
                SourceView::Base64 { media_type, data },
            ),
            _ => None,
        }
    } else if tag.tags(nested, 1, "url"@) {
        let url = rest.member("url"@).text();
        let rest = rest.without("url"@);
        match url {
            Some(url) if rest.ends() => Some(SourceView::Url { url }),
            _ => None,
        }
    } else {
        None
    }
}

proof fn lemma_source_round_trip(v: SourceView, nested: bool)
    ensures
        source_decoded(source_encoded(v), nested) == Some(v),
{
    reveal_strlit("type");
    reveal_strlit("base64");
    reveal_strlit("url");
    reveal_strlit("media_type");
    reveal_strlit("data");
    assert("type"@.len() == 4 && "data"@.len() == 4 && "type"@[0] != "data"@[0]);
    assert("media_type"@.len() == 10 && "url"@.len() == 3 && "base64"@.len() == 6);
}

/// Source of an image payload referenced from a [`ContentBlock::Image`].
///
/// Either a base64-encoded inline blob with a declared media type, or a URL
/// the provider is expected to fetch on the model's behalf.
#[derive(Debug, PartialEq, Eq)]
pub enum ImageSource {
    /// Base64-encoded inline image bytes.
    Base64 {
        /// IANA media type.
        media_type: String,
        /// Base64-encoded data, without a `data:` prefix.
        data: String,
    },
    /// URL the provider should fetch.
    Url {
        /// Absolute URL pointing at the image.
        url: String,
    },
}

impl View for ImageSource {
    type V = SourceView;

    open spec fn view(&self) -> SourceView {
        match self {
            ImageSource::Base64 { media_type, data } => SourceView::Base64 {
                media_type: media_type@,
                data: data@,
            },
            ImageSource::Url { url } => SourceView::Url { url: url@ },
        }
    }
}

impl Clone for ImageSource {
    fn clone(&self) -> (copy: ImageSource)
        ensures
            copy@ == self@,
    {
        match self {
            ImageSource::Base64 { media_type, data } => ImageSource::Base64 {
                media_type: media_type.clone(),
                data: data.clone(),
            },
            ImageSource::Url { url } => ImageSource::Url { url: url.clone() },
        }
    }
}

impl Wire for ImageSource {
    open spec fn encoded(v: SourceView) -> Tree {
        source_encoded(v)
    }

    open spec fn decoded(t: Tree, nested: bool) -> Option<SourceView> {
        source_decoded(t, nested)
    }

    open spec fn faithful(v: SourceView) -> bool {
        true
    }

    proof fn round_trip(v: SourceView, nested: bool) {
        lemma_source_round_trip(v, nested);
    }

    fn to_value(&self) -> (value: serde_json::Value) {
        let mut map = empty_map();
        match self {
            ImageSource::Base64 { media_type, data } => {
                map_insert(&mut map, "type", text_value("base64"));
                map_insert(&mut map, "media_type", text_value(media_type));
                map_insert(&mut map, "data", text_value(data));
            },
            ImageSource::Url { url } => {
                map_insert(&mut map, "type", text_value("url"));
                map_insert(&mut map, "url", text_value(url));
            },
        }
        close_value(Node::Record(map))
    }

    fn decode(value: serde_json::Value, nested: bool) -> (read: Result<ImageSource, WireError>) {
        let mut fields = match Fields::open(value) {
            Some(fields) => fields,
            None => return Err(WireError::Mismatch),
        };
        let tag = match Tag::read(fields.take("type"), nested) {
            Some(tag) => tag,
            None => return Err(WireError::Mismatch),
        };
        if tag.is(0, "base64") {
            let media_type = fields.take("media_type").text();
            let data = fields.take("data").text();
            match (media_type, data) {
                (Some(media_type), Some(data)) if fields.ends() => Ok(
                    ImageSource::Base64 { media_type, data },
                ),
                _ => Err(WireError::Mismatch),
            }
        } else if tag.is(1, "url") {
            match fields.take("url").text() {
                Some(url) if fields.ends() => Ok(ImageSource::Url { url }),
                _ => Err(WireError::Mismatch),
            }
        } else {
            Err(WireError::Mismatch)
        }
    }
}

/// Source of a document payload referenced from a [`ContentBlock::Document`].
///
/// Mirrors [`ImageSource`], for PDFs and structured documents.
#[derive(Debug, PartialEq, Eq)]
pub enum DocumentSource {
    /// Base64-encoded inline document bytes.
    Base64 {
        /// IANA media type.
        media_type: String,
        /// Base64-encoded data, without a `data:` prefix.
        data: String,
    },
    /// URL the provider should fetch.
    Url {
        /// Absolute URL pointing at the document.
        url: String,
    },
}

impl View for DocumentSource {
    type V = SourceView;

    open spec fn view(&self) -> SourceView {
        match self {
            DocumentSource::Base64 { media_type, data } => SourceView::Base64 {
                media_type: media_type@,
                data: data@,
            },
            DocumentSource::Url { url } => SourceView::Url { url: url@ },
        }
    }
}

impl Clone for DocumentSource {
    fn clone(&self) -> (copy: DocumentSource)
        ensures
            copy@ == self@,
    {
        match self {
            DocumentSource::Base64 { media_type, data } => DocumentSource::Base64 {
                media_type: media_type.clone(),
                data: data.clone(),
            },
            DocumentSource::Url { url } => DocumentSource::Url { url: url.clone() },
        }
    }
}

impl Wire for DocumentSource {
    open spec fn encoded(v: SourceView) -> Tree {
        source_encoded(v)
    }

    open spec fn decoded(t: Tree, nested: bool) -> Option<SourceView> {
        source_decoded(t, nested)
    }

    open spec fn faithful(v: SourceView) -> bool {
        true
    }

    proof fn round_trip(v: SourceView, nested: bool) {
        lemma_source_round_trip(v, nested);
    }

    fn to_value(&self) -> (value: serde_json::Value) {
        let mut map = empty_map();
        match self {
            DocumentSource::Base64 { media_type, data } => {
                map_insert(&mut map, "type", text_value("base64"));
                map_insert(&mut map, "media_type", text_value(media_type));
                map_insert(&mut map, "data", text_value(data));
            },
            DocumentSource::Url { url } => {
                map_insert(&mut map, "type", text_value("url"));
                map_insert(&mut map, "url", text_value(url));
            },
        }
        close_value(Node::Record(map))
    }

    fn decode(value: serde_json::Value, nested: bool) -> (read: Result<DocumentSource, WireError>) {
        let mut fields = match Fields::open(value) {
            Some(fields) => fields,
            None => return Err(WireError::Mismatch),
        };
        let tag = match Tag::read(fields.take("type"), nested) {
            Some(tag) => tag,
            None => return Err(WireError::Mismatch),
        };
        if tag.is(0, "base64") {
            let media_type = fields.take("media_type").text();
            let data = fields.take("data").text();
            match (media_type, data) {
                (Some(media_type), Some(data)) if fields.ends() => Ok(
                    DocumentSource::Base64 { media_type, data },
                ),
                _ => Err(WireError::Mismatch),
            }
        } else if tag.is(1, "url") {
            match fields.take("url").text() {
                Some(url) if fields.ends() => Ok(DocumentSource::Url { url }),
                _ => Err(WireError::Mismatch),
            }
        } else {
            Err(WireError::Mismatch)
        }
    }
}

/// One slice of multimodal content inside a [`Message`].
///
/// Every variant carries a `type` tag on the wire, so that providers can
/// reorder and mix blocks freely without ambiguity.
#[derive(Debug, PartialEq)]
pub enum ContentBlock {
    /// Plain UTF-8 text.
    Text {
        /// The text payload.
        text: String,
    },
    /// An image attachment.
    Image {
        /// Where the image bytes come from.
        source: ImageSource,
    },
    /// A document (e.g. PDF) attachment.
    Document {
        /// Where the document bytes come from.
        source: DocumentSource,
    },
    /// An assistant-authored request to invoke a tool.
    ///
    /// Carries the same shape as [`ToolCall`](crate::tool::ToolCall); it is a
    /// content block as well because providers interleave it with text.
    ToolUse {
        /// Provider-assigned unique id for this invocation, echoed in the
        /// matching [`ContentBlock::ToolResult`].
        id: String,
        /// Registered tool name.
        name: String,
        /// JSON arguments; the tool's input schema decides the shape.
        input: serde_json::Value,
    },
    /// A `tool`-role reply pairing with an earlier [`ContentBlock::ToolUse`].
    ToolResult {
        /// The `id` from the originating `ToolUse` block.
        tool_use_id: String,
        /// Result content, typically a single text block.
        content: Vec<ContentBlock>,
        /// `true` if this represents a tool error: the model should treat the
        /// content as a diagnostic, not as a normal result.
        is_error: bool,
    },
    /// Structured JSON content that downstream processors can walk without
    /// parsing a string. For opaque text, prefer [`ContentBlock::Text`].
    Json {
        /// The JSON payload, written as a JSON tree and not as a string.
        value: serde_json::Value,
    },
}

/// What a [`ContentBlock`] says.
pub enum BlockView {
    Text { text: Seq<char> },
    Image { source: SourceView },
    Document { source: SourceView },
    ToolUse { id: Seq<char>, name: Seq<char>, input: Tree },
    ToolResult { tool_use_id: Seq<char>, content: Seq<BlockView>, is_error: bool },
    Json { value: Tree },
}

/// What one block says.
pub open spec fn block_view(block: ContentBlock) -> BlockView
    decreases block,
{
    match block {
        ContentBlock::Text { text } => BlockView::Text { text: text@ },
        ContentBlock::Image { source } => BlockView::Image { source: source@ },
        ContentBlock::Document { source } => BlockView::Document { source: source@ },
        ContentBlock::ToolUse { id, name, input } => BlockView::ToolUse {
            id: id@,
            name: name@,
            input: value_tree(input),
        },
        ContentBlock::ToolResult { tool_use_id, content, is_error } => BlockView::ToolResult {
            tool_use_id: tool_use_id@,
            content: blocks_view(content@),
            is_error,
        },
        ContentBlock::Json { value } => BlockView::Json { value: value_tree(value) },
    }
}

/// What each of several blocks says, in order.
pub open spec fn blocks_view(blocks: Seq<ContentBlock>) -> Seq<BlockView>
    decreases blocks,
{
    if blocks.len() == 0 {
        Seq::empty()
    } else {
        blocks_view(blocks.drop_last()).push(block_view(blocks.last()))
    }
}

impl View for ContentBlock {
    type V = BlockView;

    open spec fn view(&self) -> BlockView {
        block_view(*self)
    }
}

/// The view of a sequence of blocks is the sequence of their views.
pub proof fn lemma_blocks_view(blocks: Seq<ContentBlock>)
    ensures
        blocks_view(blocks).len() == blocks.len(),
        forall|i: int|
            0 <= i < blocks.len() ==> #[trigger] blocks_view(blocks)[i] == blocks[i]@,
    decreases blocks.len(),
{
    if blocks.len() > 0 {
        lemma_blocks_view(blocks.drop_last());
    }
}

/// Copies blocks, in order.
pub(crate) fn clone_blocks(blocks: &Vec<ContentBlock>) -> (copies: Vec<ContentBlock>)
    ensures
        blocks_view(copies@) == blocks_view(blocks@),
    decreases blocks,
{
    let mut copies: Vec<ContentBlock> = Vec::new();
    let n: usize = blocks.len();
    for i in 0..n
        invariant
            n == blocks@.len(),
            copies@.len() == i,
            forall|j: int| 0 <= j < i ==> (#[trigger] copies@[j])@ == blocks@[j]@,
    {
        copies.push((&blocks[i]).clone());
    }
    proof {
        lemma_blocks_view(copies@);
        lemma_blocks_view(blocks@);
        assert(blocks_view(copies@) =~= blocks_view(blocks@));
    }
    copies
}

impl Clone for ContentBlock {
    fn clone(&self) -> (copy: ContentBlock)
        ensures
            copy@ == self@,
        decreases self,
    {
        match self {
            ContentBlock::Text { text } => ContentBlock::Text { text: text.clone() },
            ContentBlock::Image { source } => ContentBlock::Image { source: source.clone() },
            ContentBlock::Document { source } => ContentBlock::Document { source: source.clone() },
            ContentBlock::ToolUse { id, name, input } => ContentBlock::ToolUse {
                id: id.clone(),
                name: name.clone(),
                input: input.clone(),
            },
            ContentBlock::ToolResult { tool_use_id, content, is_error } => {
                let content = clone_blocks(content);
                ContentBlock::ToolResult {
                    tool_use_id: tool_use_id.clone(),
                    content,
                    is_error: *is_error,
                }
            },
            ContentBlock::Json { value } => ContentBlock::Json { value: value.clone() },
        }
    }
}

/// The document that a block is written as.
pub open spec fn block_encoded(v: BlockView) -> Tree
    decreases v,
{
    match v {
        BlockView::Text { text } => Tree::Record(
            map!["type"@ => Tree::Text("text"@), "text"@ => Tree::Text(text)],
        ),
        BlockView::Image { source } => Tree::Record(
            map!["type"@ => Tree::Text("image"@), "source"@ => source_encoded(source)],
        ),
        BlockView::Document { source } => Tree::Record(
            map!["type"@ => Tree::Text("document"@), "source"@ => source_encoded(source)],
        ),
        BlockView::ToolUse { id, name, input } => Tree::Record(
            map![
                "type"@ => Tree::Text("tool_use"@),
                "id"@ => Tree::Text(id),
                "name"@ => Tree::Text(name),
                "input"@ => input,
            ],
        ),
        BlockView::ToolResult { tool_use_id, content, is_error } => {
            let entries = map![
                "type"@ => Tree::Text("tool_result"@),
                "tool_use_id"@ => Tree::Text(tool_use_id),
                "content"@ => Tree::List(blocks_encoded(content)),
            ];
            Tree::Record(
                if is_error {
                    entries.insert("is_error"@, Tree::Bool(true))
                } else {
                    entries
                },
            )
        },
        BlockView::Json { value } => Tree::Record(
            map!["type"@ => Tree::Text("json"@), "value"@ => value],
        ),
    }
}

/// The documents that several blocks are written as.
pub open spec fn blocks_encoded(vs: Seq<BlockView>) -> Seq<Tree>
    decreases vs,
{
    if vs.len() == 0 {
        Seq::empty()
    } else {
        blocks_encoded(vs.drop_last()).push(block_encoded(vs.last()))
    }
}

/// The block that is read from a document.
pub open spec fn block_decoded(t: Tree, nested: bool) -> Option<BlockView>
    decreases t,
{
    let tag = t.member("type"@);
    let rest = t.without("type"@);
    if tag.tags(nested, 0, "text"@) {
        let text = rest.member("text"@).text();
        let rest = rest.without("text"@);
        match text {
            Some(text) if rest.ends() => Some(BlockView::Text { text }),
            _ => None,
        }
    } else if tag.tags(nested, 1, "image"@) {
        let source = rest.member("source"@).tree();
        let rest = rest.without("source"@);
        match source {
            Some(source) if rest.ends() => match source_decoded(source, true) {
                Some(source) => Some(BlockView::Image { source }),
                None => None,
            },
            _ => None,
        }
    } else if tag.tags(nested, 2, "document"@) {
        let source = rest.member("source"@).tree();
        let rest = rest.without("source"@);
        match source {
            Some(source) if rest.ends() => match source_decoded(source, true) {
                Some(source) => Some(BlockView::Document { source }),
                None => None,
            },
            _ => None,
        }
    } else if tag.tags(nested, 3, "tool_use"@) {
        let id = rest.member("id"@).text();
        let rest = rest.without("id"@);
        let name = rest.member("name"@).text();
        let rest = rest.without("name"@);
        let input = rest.member("input"@).tree();
        let rest = rest.without("input"@);
        match (id, name, input) {
            (Some(id), Some(name), Some(input)) if rest.ends() => Some(
                BlockView::ToolUse { id, name, input },
            ),
            _ => None,
        }
    } else if tag.tags(nested, 4, "tool_result"@) {
        let tool_use_id = rest.member("tool_use_id"@).text();
        let rest = rest.without("tool_use_id"@);
        let content = rest.member("content"@).items();
        let rest = rest.without("content"@);
        let is_error = rest.member("is_error"@).flag();
        let rest = rest.without("is_error"@);
        match (tool_use_id, content, is_error) {
            (Some(tool_use_id), Some(content), Some(is_error)) if rest.ends() => {
                match blocks_decoded(content, true) {
                    Some(content) => Some(
                        BlockView::ToolResult { tool_use_id, content, is_error },
                    ),
                    None => None,
                }
            },
            _ => None,
        }
    } else if tag.tags(nested, 5, "json"@) {
        let value = rest.member("value"@).tree();
        let rest = rest.without("value"@);
        match value {
            Some(value) if rest.ends() => Some(BlockView::Json { value }),
            _ => None,
        }
    } else {
        None
    }
}

/// The blocks that are read from several documents: all of them, or none.
pub open spec fn blocks_decoded(ts: Seq<Tree>, nested: bool) -> Option<Seq<BlockView>>
    decreases ts,
{
    if ts.len() == 0 {
        Some(Seq::empty())
    } else {
        match (blocks_decoded(ts.drop_last(), nested), block_decoded(ts.last(), nested)) {
            (Some(vs), Some(v)) => Some(vs.push(v)),
            _ => None,
        }
    }
}

/// Several blocks are written one by one.
pub proof fn lemma_blocks_encoded(vs: Seq<BlockView>)
    ensures
        blocks_encoded(vs).len() == vs.len(),
        forall|i: int|
            0 <= i < vs.len() ==> #[trigger] blocks_encoded(vs)[i] == block_encoded(vs[i]),
    decreases vs.len(),
{
    if vs.len() > 0 {
        lemma_blocks_encoded(vs.drop_last());
    }
}

/// A written block is read back.
pub proof fn lemma_block_round_trip(v: BlockView, nested: bool)
    ensures
        block_decoded(block_encoded(v), nested) == Some(v),
    decreases v,
{
    reveal_strlit("type");
    reveal_strlit("text");
    reveal_strlit("image");
    reveal_strlit("document");
    reveal_strlit("tool_use");
    reveal_strlit("tool_result");
    reveal_strlit("json");
    reveal_strlit("source");
    reveal_strlit("id");
    reveal_strlit("name");
    reveal_strlit("input");
    reveal_strlit("tool_use_id");
    reveal_strlit("content");
    reveal_strlit("is_error");
    reveal_strlit("value");
    assert("type"@.len() == 4 && "text"@.len() == 4 && "name"@.len() == 4 && "json"@.len() == 4);
    assert("type"@[1] != "text"@[1] && "type"@[0] != "name"@[0] && "text"@[0] != "json"@[0]);
    assert("image"@.len() == 5 && "input"@.len() == 5 && "value"@.len() == 5);
    assert("document"@.len() == 8 && "tool_use"@.len() == 8 && "is_error"@.len() == 8);
    assert("document"@[0] != "tool_use"@[0]);
    assert("tool_result"@.len() == 11 && "tool_use_id"@.len() == 11 && "id"@.len() == 2);
    assert("source"@.len() == 6 && "content"@.len() == 7);
    match v {
        BlockView::Image { source } => {
            lemma_source_round_trip(source, true);
        },
        BlockView::Document { source } => {
            lemma_source_round_trip(source, true);
        },
        BlockView::ToolResult { content, .. } => {
            lemma_blocks_round_trip(content, true);
        },
        _ => {},
    }
}

/// Several written blocks are read back.
pub proof fn lemma_blocks_round_trip(vs: Seq<BlockView>, nested: bool)
    ensures
        blocks_decoded(blocks_encoded(vs), nested) == Some(vs),
    decreases vs,
{
    if vs.len() > 0 {
        lemma_blocks_round_trip(vs.drop_last(), nested);
        lemma_block_round_trip(vs.last(), nested);
        assert(blocks_encoded(vs).drop_last() =~= blocks_encoded(vs.drop_last()));
        assert(vs.drop_last().push(vs.last()) =~= vs);
    } else {
        assert(vs =~= Seq::empty());
    }
}

/// Writes blocks, in order.
pub(crate) fn blocks_value(blocks: &Vec<ContentBlock>) -> (value: serde_json::Value)
    ensures
        value_tree(value) == Tree::List(blocks_encoded(blocks_view(blocks@))),
    decreases blocks,
{
    let mut values: Vec<serde_json::Value> = Vec::new();
    let n: usize = blocks.len();
    for i in 0..n
        invariant
            n == blocks@.len(),
            values@.len() == i,
            forall|j: int|
                0 <= j < i ==> value_tree(#[trigger] values@[j]) == block_encoded(blocks@[j]@),
    {
        values.push((&blocks[i]).to_value());
    }
    proof {
        lemma_blocks_view(blocks@);
        lemma_blocks_encoded(blocks_view(blocks@));
        assert(trees(values@) =~= blocks_encoded(blocks_view(blocks@)));
    }
    close_value(Node::List(values))
}

/// Reads blocks, in order: all of them, or none.
pub(crate) fn decode_blocks(values: Vec<serde_json::Value>, nested: bool) -> (read: Option<
    Vec<ContentBlock>,
>)
    ensures
        read is Some <==> blocks_decoded(trees(values@), nested) is Some,
        read matches Some(blocks) ==> blocks_decoded(trees(values@), nested) == Some(
            blocks_view(blocks@),
        ),
    decreases trees(values@),
{
    let mut blocks: Vec<ContentBlock> = Vec::new();
    let ghost ts = trees(values@);
    for value in it: values
        invariant
            it.seq() == values@,
            ts == trees(values@),
            blocks_decoded(ts.take(it.index()), nested) == Some(blocks_view(blocks@)),
    {
        let ghost i: int = it.index();
        assert(ts.take(i + 1).drop_last() =~= ts.take(i));
        assert(ts.take(i + 1).last() == value_tree(value));
        assert(decreases_to!(ts => ts[i]));
        match ContentBlock::decode(value, nested) {
            Ok(block) => {
                let ghost before = blocks@;
                blocks.push(block);
                assert(blocks@.drop_last() =~= before);
            },
            Err(_) => {
                proof {
                    lemma_blocks_unread(ts, i + 1, nested);
                }
                return None;
            },
        }
    }
    assert(ts.take(ts.len() as int) =~= ts);
    Some(blocks)
}

/// Blocks of which a first part cannot be read cannot be read.
proof fn lemma_blocks_unread(ts: Seq<Tree>, n: int, nested: bool)
    requires
        0 <= n <= ts.len(),
        blocks_decoded(ts.take(n), nested) is None,
    ensures
        blocks_decoded(ts, nested) is None,
    decreases ts.len(),
{
    if n < ts.len() {
        assert(ts.drop_last().take(n) =~= ts.take(n));
        lemma_blocks_unread(ts.drop_last(), n, nested);
    } else {
        assert(ts.take(n) =~= ts);
    }
}

impl Wire for ContentBlock {
    open spec fn encoded(v: BlockView) -> Tree {
        block_encoded(v)
    }

    open spec fn decoded(t: Tree, nested: bool) -> Option<BlockView> {
        block_decoded(t, nested)
    }

    open spec fn faithful(v: BlockView) -> bool {
        true
    }

    proof fn round_trip(v: BlockView, nested: bool) {
        lemma_block_round_trip(v, nested);
    }

    fn to_value(&self) -> (value: serde_json::Value)
        decreases self,
    {
        let mut map = empty_map();
        match self {
            ContentBlock::Text { text } => {
                map_insert(&mut map, "type", text_value("text"));
                map_insert(&mut map, "text", text_value(text));
            },
            ContentBlock::Image { source } => {
                map_insert(&mut map, "type", text_value("image"));
                map_insert(&mut map, "source", source.to_value());
            },
            ContentBlock::Document { source } => {
                map_insert(&mut map, "type", text_value("document"));
                map_insert(&mut map, "source", source.to_value());
            },
            ContentBlock::ToolUse { id, name, input } => {
                map_insert(&mut map, "type", text_value("tool_use"));
                map_insert(&mut map, "id", text_value(id));
                map_insert(&mut map, "name", text_value(name));
                map_insert(&mut map, "input", input.clone());
            },
            ContentBlock::ToolResult { tool_use_id, content, is_error } => {
                map_insert(&mut map, "type", text_value("tool_result"));
                map_insert(&mut map, "tool_use_id", text_value(tool_use_id));
                map_insert(&mut map, "content", blocks_value(content));
                if !is_false(is_error) {
                    map_insert(&mut map, "is_error", flag_value(*is_error));
                }
            },
            ContentBlock::Json { value } => {
                map_insert(&mut map, "type", text_value("json"));
                map_insert(&mut map, "value", value.clone());
            },
        }
        close_value(Node::Record(map))
    }

    fn decode(value: serde_json::Value, nested: bool) -> (read: Result<ContentBlock, WireError>)
        decreases value_tree(value),
    {
        let mut fields = match Fields::open(value) {
            Some(fields) => fields,
            None => return Err(WireError::Mismatch),
        };
        let tag = match Tag::read(fields.take("type"), nested) {
            Some(tag) => tag,
            None => return Err(WireError::Mismatch),
        };
        if tag.is(0, "text") {
            match fields.take("text").text() {
                Some(text) if fields.ends() => Ok(ContentBlock::Text { text }),
                _ => Err(WireError::Mismatch),
            }
        } else if tag.is(1, "image") {
            match fields.take("source").value() {
                Some(source) if fields.ends() => match ImageSource::decode(source, true) {
                    Ok(source) => Ok(ContentBlock::Image { source }),
                    Err(e) => Err(e),
                },
                _ => Err(WireError::Mismatch),
            }
        } else if tag.is(2, "document") {
            match fields.take("source").value() {
                Some(source) if fields.ends() => match DocumentSource::decode(source, true) {
                    Ok(source) => Ok(ContentBlock::Document { source }),
                    Err(e) => Err(e),
                },
                _ => Err(WireError::Mismatch),
            }
        } else if tag.is(3, "tool_use") {
            let id = fields.take("id").text();
            let name = fields.take("name").text();
            let input = fields.take("input").value();
            match (id, name, input) {
                (Some(id), Some(name), Some(input)) if fields.ends() => Ok(
                    ContentBlock::ToolUse { id, name, input },
                ),
                _ => Err(WireError::Mismatch),
            }
        } else if tag.is(4, "tool_result") {
            let tool_use_id = fields.take("tool_use_id").text();
            let content = fields.take("content").items();
            let is_error = fields.take("is_error").flag();
            match (tool_use_id, content, is_error) {
                (Some(tool_use_id), Some(content), Some(is_error)) if fields.ends() => {
                    match decode_blocks(content, true) {
                        Some(content) => Ok(
                            ContentBlock::ToolResult { tool_use_id, content, is_error },
                        ),
                        None => Err(WireError::Mismatch),
                    }
                },
                _ => Err(WireError::Mismatch),
            }
        } else if tag.is(5, "json") {
            match fields.take("value").value() {
                Some(value) if fields.ends() => Ok(ContentBlock::Json { value }),
                _ => Err(WireError::Mismatch),
            }
        } else {
            Err(WireError::Mismatch)
        }
    }
}

/// The tag of a block.
pub open spec fn block_name(v: BlockView) -> Seq<char> {
    match v {
        BlockView::Text { .. } => "text"@,
        BlockView::Image { .. } => "image"@,
        BlockView::Document { .. } => "document"@,
        BlockView::ToolUse { .. } => "tool_use"@,
        BlockView::ToolResult { .. } => "tool_result"@,
        BlockView::Json { .. } => "json"@,
    }
}

/// Every block is written with its tag.
pub proof fn block_tag_written(v: BlockView)
    ensures
        block_encoded(v).member("type"@) == Member::Given(Tree::Text(block_name(v))),
{
    reveal_strlit("type");
    reveal_strlit("text");
    reveal_strlit("source");
    reveal_strlit("id");
    reveal_strlit("name");
    reveal_strlit("input");
    reveal_strlit("tool_use_id");
    reveal_strlit("content");
    reveal_strlit("is_error");
    reveal_strlit("value");
    assert("type"@.len() == 4 && "text"@.len() == 4 && "name"@.len() == 4);
    assert("type"@[1] != "text"@[1] && "type"@[0] != "name"@[0]);
    assert("source"@.len() == 6 && "id"@.len() == 2 && "input"@.len() == 5);
    assert("tool_use_id"@.len() == 11 && "content"@.len() == 7 && "is_error"@.len() == 8);
    assert("value"@.len() == 5);
}

/// The tag tells the variants of a block apart.
pub proof fn block_tags_tell_apart(a: BlockView, b: BlockView)
    requires
        block_name(a) == block_name(b),
    ensures
        a is Text <==> b is Text,
        a is Image <==> b is Image,
        a is Document <==> b is Document,
        a is ToolUse <==> b is ToolUse,
        a is ToolResult <==> b is ToolResult,
        a is Json <==> b is Json,
{
    reveal_strlit("text");
    reveal_strlit("image");
    reveal_strlit("document");
    reveal_strlit("tool_use");
    reveal_strlit("tool_result");
    reveal_strlit("json");
    assert("text"@.len() == 4 && "json"@.len() == 4 && "text"@[0] != "json"@[0]);
    assert("image"@.len() == 5 && "tool_result"@.len() == 11);
    assert("document"@.len() == 8 && "tool_use"@.len() == 8 && "document"@[0] != "tool_use"@[0]);
}

/// A document source travels as an image source with the same content does.
pub proof fn document_source_mirrors_image_source(v: SourceView, t: Tree, nested: bool)
    ensures
        DocumentSource::encoded(v) == ImageSource::encoded(v),
        DocumentSource::decoded(t, nested) == ImageSource::decoded(t, nested),
{
}

/// A source nests one object.
pub proof fn source_reprints(v: SourceView, levels: nat)
    requires
        levels >= 1,
    ensures
        reprints(source_encoded(v), levels),
{
    reveal_with_fuel(reprints, 2);
}

/// The block, written, nests no more than `levels` arrays and objects, and the
/// numbers in its JSON payloads are integers.
pub open spec fn block_fits(v: BlockView, levels: nat) -> bool
    decreases v,
{
    match v {
        BlockView::Text { .. } => levels >= 1,
        BlockView::Image { .. } => levels >= 2,
        BlockView::Document { .. } => levels >= 2,
        BlockView::ToolUse { input, .. } => levels >= 1 && reprints(input, (levels - 1) as nat),
        BlockView::ToolResult { content, .. } => levels >= 2 && forall|i: int|
            0 <= i < content.len() ==> block_fits(#[trigger] content[i], (levels - 2) as nat),
        BlockView::Json { value } => levels >= 1 && reprints(value, (levels - 1) as nat),
    }
}

/// The text of a block that fits is read back as the block was.
pub proof fn block_reprints(v: BlockView, levels: nat)
    requires
        block_fits(v, levels),
    ensures
        reprints(block_encoded(v), levels),
    decreases v,
{
    reveal_with_fuel(reprints, 2);
    match v {
        BlockView::Image { source } => source_reprints(source, (levels - 1) as nat),
        BlockView::Document { source } => source_reprints(source, (levels - 1) as nat),
        BlockView::ToolResult { content, .. } => blocks_reprint(content, (levels - 2) as nat),
        _ => {},
    }
}

/// The text of blocks that fit is read back as the blocks were.
pub proof fn blocks_reprint(vs: Seq<BlockView>, levels: nat)
    requires
        forall|i: int| 0 <= i < vs.len() ==> block_fits(#[trigger] vs[i], levels),
    ensures
        reprints(Tree::List(blocks_encoded(vs)), levels + 1),
    decreases vs,
{
    lemma_blocks_encoded(vs);
    assert forall|i: int| 0 <= i < vs.len() implies reprints(
        #[trigger] blocks_encoded(vs)[i],
        levels,
    ) by {
        assert(decreases_to!(vs => vs[i]));
        block_reprints(vs[i], levels);
    }
}

} // verus!
