use motosan_agent_primitives::message::{
    ContentBlock, DocumentSource, ImageSource, Message, MessageId, Role,
};
use motosan_agent_primitives::{Stamp, StampedWire, Timestamp, Wire, WireError};
use serde_json::Value;

fn parsed(text: &str) -> Result<serde_json::Value, WireError> {
    serde_json::from_str(text).map_err(|_| WireError::Malformed)
}

/// The text of a value's document, and the value that a text's document holds.
trait Text: Wire {
    fn to_json(&self) -> String {
        self.to_value().to_string()
    }

    fn from_json(text: &str) -> Result<Self, WireError> {
        Self::from_value(parsed(text)?)
    }
}

impl<T: Wire> Text for T {}

/// The same for values that carry ids or times.
trait StampedText: StampedWire {
    fn to_json(&self) -> String {
        self.to_value().to_string()
    }

    fn from_json(text: &str) -> Result<Self, WireError> {
        Self::from_value(parsed(text)?)
    }

    fn from_json_with(text: &str, stamp: Stamp) -> Result<Self, WireError> {
        Self::from_value_with(parsed(text)?, stamp)
    }
}

impl<T: StampedWire> StampedText for T {}

fn document(text: &str) -> serde_json::Value {
    parsed(text).unwrap()
}

fn object(members: Vec<(&str, Value)>) -> Value {
    Value::Object(members.into_iter().map(|(k, v)| (k.to_string(), v)).collect())
}

fn round_trip(block: &ContentBlock) -> ContentBlock {
    let s = block.to_json();
    ContentBlock::from_json(&s).unwrap()
}

fn stamp() -> Stamp {
    Stamp {
        id: MessageId(0x0123_4567_89ab_cdef_0123_4567_89ab_cdef),
        created_at: Timestamp::from_parts(1_700_000_000, 0).unwrap(),
    }
}

#[test]
fn text_block_round_trip() {
    let b = ContentBlock::Text { text: "hello".into() };
    assert_eq!(round_trip(&b), b);
}

#[test]
fn image_block_round_trip_base64() {
    let b = ContentBlock::Image {
        source: ImageSource::Base64 {
            media_type: "image/png".into(),
            data: "iVBORw0KGgo=".into(),
        },
    };
    assert_eq!(round_trip(&b), b);
}

#[test]
fn image_block_round_trip_url() {
    let b = ContentBlock::Image {
        source: ImageSource::Url { url: "https://example.com/cat.png".into() },
    };
    assert_eq!(round_trip(&b), b);
}

#[test]
fn document_block_round_trip() {
    let b = ContentBlock::Document {
        source: DocumentSource::Base64 {
            media_type: "application/pdf".into(),
            data: "JVBERi0=".into(),
        },
    };
    assert_eq!(round_trip(&b), b);
}

#[test]
fn tool_use_round_trip() {
    let b = ContentBlock::ToolUse {
        id: "call_1".into(),
        name: "lookup".into(),
        input: object(vec![("q", Value::from("weather"))]),
    };
    assert_eq!(round_trip(&b), b);
}

#[test]
fn message_tool_result_round_trip() {
    let b = ContentBlock::ToolResult {
        tool_use_id: "call_1".into(),
        content: vec![ContentBlock::Text { text: "sunny".into() }],
        is_error: false,
    };
    assert_eq!(round_trip(&b), b);
}

#[test]
fn tool_result_error_round_trip() {
    let b = ContentBlock::ToolResult {
        tool_use_id: "call_1".into(),
        content: vec![ContentBlock::Text { text: "boom".into() }],
        is_error: true,
    };
    let s = b.to_json();
    assert!(s.contains("\"is_error\":true"));
    assert_eq!(round_trip(&b), b);
}

#[test]
fn message_text_constructor() {
    let m = Message::text(Role::User, "hi");
    assert_eq!(m.role, Role::User);
    assert_eq!(m.content.len(), 1);
}

#[test]
fn message_tool_calls_constructor() {
    let m = Message::tool_calls(vec![("c1", "n", object(vec![]))]);
    assert_eq!(m.role, Role::Assistant);
    match &m.content[0] {
        ContentBlock::ToolUse { id, name, .. } => {
            assert_eq!(id, "c1");
            assert_eq!(name, "n");
        }
        _ => panic!("expected ToolUse"),
    }
}

#[test]
fn message_tool_results_constructor() {
    let m = Message::tool_results(vec![("c1", "ok")]);
    assert_eq!(m.role, Role::Tool);
    match &m.content[0] {
        ContentBlock::ToolResult { tool_use_id, .. } => {
            assert_eq!(tool_use_id, "c1");
        }
        _ => panic!("expected ToolResult"),
    }
}

#[test]
fn message_round_trip() {
    let m = Message::text(Role::User, "ping");
    let s = m.to_json();
    let back = Message::from_json(&s).unwrap();
    assert_eq!(m, back);
}

#[test]
fn content_block_json_round_trip() {
    let cb = ContentBlock::Json {
        value: object(vec![
            ("user", Value::from("alice")),
            ("score", Value::from(42)),
            ("tags", Value::from(vec!["a", "b"])),
        ]),
    };
    let s = cb.to_json();
    let back = ContentBlock::from_json(&s).unwrap();
    assert_eq!(cb, back);
}

#[test]
fn content_block_json_serde_tag() {
    let cb = ContentBlock::Json { value: object(vec![("k", Value::from(1))]) };
    let v = cb.to_value();
    assert_eq!(v["type"], "json");
    // value is the JSON tree itself, not a string:
    assert_eq!(v["value"]["k"], 1);
}

#[test]
fn block_documents_are_exact() {
    let source = DocumentSource::Url { url: "u".into() };
    for (block, text) in [
        (ContentBlock::Text { text: "a\"b".into() }, "{\"text\":\"a\\\"b\",\"type\":\"text\"}"),
        (
            ContentBlock::Image {
                source: ImageSource::Base64 { media_type: "m".into(), data: "d".into() },
            },
            "{\"source\":{\"data\":\"d\",\"media_type\":\"m\",\"type\":\"base64\"},\"type\":\"image\"}",
        ),
        (
            ContentBlock::Document { source },
            "{\"source\":{\"type\":\"url\",\"url\":\"u\"},\"type\":\"document\"}",
        ),
        (
            ContentBlock::ToolUse { id: "i".into(), name: "n".into(), input: Value::Null },
            "{\"id\":\"i\",\"input\":null,\"name\":\"n\",\"type\":\"tool_use\"}",
        ),
        (
            ContentBlock::ToolResult { tool_use_id: "i".into(), content: vec![], is_error: false },
            "{\"content\":[],\"tool_use_id\":\"i\",\"type\":\"tool_result\"}",
        ),
        (
            ContentBlock::ToolResult { tool_use_id: "i".into(), content: vec![], is_error: true },
            "{\"content\":[],\"is_error\":true,\"tool_use_id\":\"i\",\"type\":\"tool_result\"}",
        ),
        (ContentBlock::Json { value: Value::from(-7) }, "{\"type\":\"json\",\"value\":-7}"),
    ] {
        assert_eq!(block.to_value(), document(text));
        assert_eq!(ContentBlock::from_json(text), Ok(block));
    }
}

#[test]
fn image_and_document_sources_travel_alike() {
    let image = ImageSource::Base64 { media_type: "m".into(), data: "d".into() };
    let document = DocumentSource::Base64 { media_type: "m".into(), data: "d".into() };
    assert_eq!(image.to_value(), document.to_value());
    assert_eq!(DocumentSource::from_value(image.to_value()), Ok(document.clone()));
    assert_eq!(image.clone(), image);
    assert_eq!(document.clone(), document);
}

#[test]
fn block_reads_from_an_array() {
    assert_eq!(
        ContentBlock::from_json("[\"text\",\"hi\"]"),
        Ok(ContentBlock::Text { text: "hi".into() })
    );
    assert_eq!(ContentBlock::from_json("[\"text\"]"), Err(WireError::Mismatch));
    assert_eq!(ContentBlock::from_json("[\"text\",\"hi\",1]"), Err(WireError::Mismatch));
    assert_eq!(ContentBlock::from_json("[]"), Err(WireError::Mismatch));
    assert_eq!(
        ContentBlock::from_json("[\"tool_result\",\"c\",[]]"),
        Ok(ContentBlock::ToolResult { tool_use_id: "c".into(), content: vec![], is_error: false })
    );
}

#[test]
fn positions_tag_nested_values_only() {
    assert_eq!(ContentBlock::from_json("{\"type\":0,\"text\":\"hi\"}"), Err(WireError::Mismatch));
    assert_eq!(
        ContentBlock::from_json(
            "{\"type\":\"image\",\"source\":{\"type\":1,\"url\":\"u\"}}"
        ),
        Ok(ContentBlock::Image { source: ImageSource::Url { url: "u".into() } })
    );
    assert_eq!(
        ContentBlock::from_json(
            "{\"type\":\"tool_result\",\"tool_use_id\":\"c\",\"content\":[{\"type\":0,\"text\":\"hi\"}]}"
        ),
        Ok(ContentBlock::ToolResult {
            tool_use_id: "c".into(),
            content: vec![ContentBlock::Text { text: "hi".into() }],
            is_error: false,
        })
    );
    assert_eq!(
        ContentBlock::from_json(
            "{\"type\":\"image\",\"source\":{\"type\":2,\"url\":\"u\"}}"
        ),
        Err(WireError::Mismatch)
    );
}

#[test]
fn block_refuses_what_it_does_not_know() {
    for text in [
        "{}",
        "{\"type\":\"video\"}",
        "{\"type\":\"text\"}",
        "{\"type\":\"text\",\"text\":1}",
        "{\"type\":\"image\",\"source\":\"u\"}",
        "{\"type\":\"json\"}",
        "{\"type\":\"tool_result\",\"tool_use_id\":\"c\",\"content\":[1]}",
        "{\"type\":\"tool_result\",\"tool_use_id\":\"c\",\"content\":[],\"is_error\":null}",
        "\"text\"",
        "null",
    ] {
        assert_eq!(ContentBlock::from_json(text), Err(WireError::Mismatch), "{text}");
    }
    for text in ["", "{", "{\"type\":\"text\",}", "nul"] {
        assert_eq!(ContentBlock::from_json(text), Err(WireError::Malformed), "{text}");
    }
}

#[test]
fn nested_results_round_trip_and_copy() {
    let inner = ContentBlock::ToolResult {
        tool_use_id: "in".into(),
        content: vec![
            ContentBlock::Json { value: Value::from(vec![1, 2]) },
            ContentBlock::Text { text: "t".into() },
        ],
        is_error: true,
    };
    let outer = ContentBlock::ToolResult {
        tool_use_id: "out".into(),
        content: vec![inner, ContentBlock::Text { text: "u".into() }],
        is_error: false,
    };
    assert_eq!(round_trip(&outer), outer);
    assert_eq!(ContentBlock::from_value(outer.to_value()), Ok(outer.clone()));
}

#[test]
fn nesting_is_read_up_to_the_limit() {
    fn nested(levels: usize) -> ContentBlock {
        let mut value = Value::from(1);
        for _ in 0..levels {
            value = Value::from(vec![value]);
        }
        ContentBlock::Json { value }
    }
    let fits = nested(126);
    assert_eq!(ContentBlock::from_json(&fits.to_json()), Ok(fits));
    let deep = nested(127);
    assert_eq!(ContentBlock::from_json(&deep.to_json()), Err(WireError::Malformed));
    assert_eq!(ContentBlock::from_value(deep.to_value()), Ok(deep));
}

#[test]
fn role_names_are_exact() {
    for (role, text) in [
        (Role::System, "\"system\""),
        (Role::User, "\"user\""),
        (Role::Assistant, "\"assistant\""),
        (Role::Tool, "\"tool\""),
    ] {
        assert_eq!(role.to_value(), document(text));
        assert_eq!(Role::from_json(text), Ok(role));
    }
    assert_eq!(Role::from_json("{\"user\":null}"), Ok(Role::User));
    assert_eq!(Role::from_json("{\"user\":{}}"), Err(WireError::Mismatch));
    assert_eq!(Role::from_json("{\"user\":null,\"tool\":null}"), Err(WireError::Mismatch));
    assert_eq!(Role::from_json("\"User\""), Err(WireError::Mismatch));
    assert_eq!(Role::from_json("1"), Err(WireError::Mismatch));
}

#[test]
fn fresh_ids_are_version_four_and_differ() {
    let a = MessageId::new();
    let b = MessageId::default();
    assert_ne!(a, b);
    for id in [a, b] {
        assert_eq!((id.0 >> 76) & 0xf, 4);
        assert_eq!((id.0 >> 62) & 3, 2);
        let text = id.to_text();
        assert_eq!(text.len(), 36);
        assert_eq!(MessageId::parse(&text), Some(id));
    }
}

#[test]
fn id_text_is_exact() {
    let id = MessageId(0x0123_4567_89ab_cdef_0123_4567_89ab_cdef);
    assert_eq!(id.to_text(), "01234567-89ab-cdef-0123-456789abcdef");
    assert_eq!(id.to_value(), document("\"01234567-89ab-cdef-0123-456789abcdef\""));
    assert_eq!(MessageId(0).to_text(), "00000000-0000-0000-0000-000000000000");
    assert_eq!(MessageId(1).to_text(), "00000000-0000-0000-0000-000000000001");
}

#[test]
fn ids_are_read_in_every_uuid_form() {
    let id = MessageId(0x0123_4567_89ab_cdef_0123_4567_89ab_cdef);
    for text in [
        "01234567-89ab-cdef-0123-456789abcdef",
        "01234567-89AB-CDEF-0123-456789ABCDEF",
        "0123456789abcdef0123456789abcdef",
        "urn:uuid:01234567-89ab-cdef-0123-456789abcdef",
        "{01234567-89ab-cdef-0123-456789abcdef}",
    ] {
        assert_eq!(MessageId::parse(text), Some(id), "{text}");
        assert_eq!(MessageId::from_value(Value::from(text)), Ok(id));
    }
    assert_eq!(MessageId::parse("01234567"), None);
    assert_eq!(MessageId::from_value(Value::from("no")), Err(WireError::Mismatch));
    assert_eq!(MessageId::from_value(Value::from(5)), Err(WireError::Mismatch));
}

#[test]
fn text_message_is_exact() {
    let s = stamp();
    let m = Message::text_at(s.id, s.created_at, Role::System, "be brief".into());
    assert_eq!(
        m,
        Message {
            id: s.id,
            role: Role::System,
            content: vec![ContentBlock::Text { text: "be brief".into() }],
            created_at: s.created_at,
        }
    );
    assert_eq!(
        m.to_value(),
        document("{\"content\":[{\"text\":\"be brief\",\"type\":\"text\"}],\"created_at\":\"2023-11-14T22:13:20Z\",\"id\":\"01234567-89ab-cdef-0123-456789abcdef\",\"role\":\"system\"}")
    );
    assert_eq!(m.clone(), m);
}

#[test]
fn tool_calls_keep_their_order() {
    let s = stamp();
    let m = Message::tool_calls_at(
        s.id,
        s.created_at,
        vec![
            ("a".into(), "first".into(), Value::from(1)),
            ("b".into(), "second".into(), Value::Null),
        ],
    );
    assert_eq!(m.role, Role::Assistant);
    assert_eq!(
        m.content,
        vec![
            ContentBlock::ToolUse { id: "a".into(), name: "first".into(), input: Value::from(1) },
            ContentBlock::ToolUse { id: "b".into(), name: "second".into(), input: Value::Null },
        ]
    );
    let fresh = Message::tool_calls(vec![
        ("a", String::from("first"), Value::from(1)),
        ("b", String::from("second"), Value::Null),
    ]);
    assert_eq!(fresh.content, m.content);
    assert!(Message::tool_calls(Vec::<(String, String, Value)>::new()).content.is_empty());
}

#[test]
fn tool_results_echo_their_ids_in_order() {
    let s = stamp();
    let m = Message::tool_results_at(
        s.id,
        s.created_at,
        vec![("a".into(), "one".into()), ("b".into(), "two".into())],
    );
    assert_eq!(m.role, Role::Tool);
    assert_eq!(
        m.content,
        vec![
            ContentBlock::ToolResult {
                tool_use_id: "a".into(),
                content: vec![ContentBlock::Text { text: "one".into() }],
                is_error: false,
            },
            ContentBlock::ToolResult {
                tool_use_id: "b".into(),
                content: vec![ContentBlock::Text { text: "two".into() }],
                is_error: false,
            },
        ]
    );
    assert_eq!(Message::tool_results(vec![("a", "one"), ("b", "two")]).content, m.content);
}

#[test]
fn message_without_id_and_time_gets_the_stamp() {
    let s = stamp();
    let text = "{\"role\":\"user\",\"content\":[]}";
    let m = Message::from_json_with(text, s).unwrap();
    assert_eq!(m, Message { id: s.id, role: Role::User, content: vec![], created_at: s.created_at });
    let value = object(vec![("role", Value::from("user")), ("content", Value::Array(vec![]))]);
    assert_eq!(Message::from_value_with(value, s), Ok(m));
}

#[test]
fn message_without_id_and_time_gets_fresh_ones() {
    let text = "{\"role\":\"user\",\"content\":[]}";
    let a = Message::from_json(text).unwrap();
    let b = Message::from_json(text).unwrap();
    assert_ne!(a.id, b.id);
    assert_eq!((a.id.0 >> 76) & 0xf, 4);
    assert!(a.created_at.to_rfc3339() > String::from("2024"));
}

#[test]
fn stated_id_and_time_are_kept() {
    let s = stamp();
    let text = "{\"id\":\"00000000-0000-0000-0000-000000000001\",\"role\":\"tool\",\"content\":[],\"created_at\":\"1970-01-01T01:00:05+01:00\"}";
    let m = Message::from_json_with(text, s).unwrap();
    assert_eq!(m.id, MessageId(1));
    assert_eq!(Some(m.created_at), Timestamp::from_parts(5, 0));
}

#[test]
fn message_reads_from_an_array() {
    let s = stamp();
    let m = Message::from_json_with(
        "[\"00000000-0000-0000-0000-000000000001\",\"user\",[[\"text\",\"hi\"]]]",
        s,
    )
    .unwrap();
    assert_eq!(m.id, MessageId(1));
    assert_eq!(m.created_at, s.created_at);
    assert_eq!(m.content, vec![ContentBlock::Text { text: "hi".into() }]);
    assert_eq!(Message::from_json("[]"), Err(WireError::Mismatch));
}

#[test]
fn message_refuses_bad_members() {
    for text in [
        "{\"role\":\"user\"}",
        "{\"content\":[]}",
        "{\"role\":\"robot\",\"content\":[]}",
        "{\"role\":\"user\",\"content\":[{}]}",
        "{\"role\":\"user\",\"content\":[{\"type\":0,\"text\":\"hi\"}]}",
        "{\"role\":\"user\",\"content\":[],\"id\":null}",
        "{\"role\":\"user\",\"content\":[],\"id\":\"x\"}",
        "{\"role\":\"user\",\"content\":[],\"created_at\":0}",
        "{\"role\":\"user\",\"content\":[],\"created_at\":\"yesterday\"}",
    ] {
        assert_eq!(Message::from_json(text), Err(WireError::Mismatch), "{text}");
        assert_eq!(Message::from_json_with(text, stamp()), Err(WireError::Mismatch), "{text}");
    }
    assert_eq!(Message::from_json("{"), Err(WireError::Malformed));
    assert_eq!(Message::from_json_with("{", stamp()), Err(WireError::Malformed));
}

#[test]
fn false_flags_are_not_written() {
    assert!(motosan_agent_primitives::message::is_false(&false));
    assert!(!motosan_agent_primitives::message::is_false(&true));
}

#[test]
fn messages_arrive_as_they_were() {
    let m = Message::text(Role::User, "ping");
    assert_eq!(m.relayed(), Ok(m.clone()));
    let b = ContentBlock::Json { value: Value::from(vec![1, -2]) };
    assert_eq!(b.relayed(), Ok(b.clone()));
    let mut deep = Value::from(1);
    for _ in 0..127 {
        deep = Value::from(vec![deep]);
    }
    assert_eq!(ContentBlock::Json { value: deep }.relayed(), Err(WireError::Malformed));
}

#[test]
fn owned_and_borrowed_texts_are_alike() {
    let owned = Message::text(Role::User, String::from("hi"));
    assert_eq!(owned.content, Message::text(Role::User, "hi").content);
    assert_eq!(owned.content, vec![ContentBlock::Text { text: "hi".into() }]);
}

#[test]
fn fresh_times_are_no_leap_seconds() {
    assert!(Message::text(Role::User, "hi").created_at.nanos() < 1_000_000_000);
    assert!(Message::tool_results(vec![("c", "ok")]).created_at.nanos() < 1_000_000_000);
}

#[test]
fn batches_concatenate() {
    let a = vec![("a", "x", Value::from(1)), ("b", "y", Value::from(2))];
    let b = vec![("a", "z", Value::Null)];
    let both: Vec<_> = a.iter().cloned().chain(b.iter().cloned()).collect();
    let mut content = Message::tool_calls(a).content;
    content.extend(Message::tool_calls(b).content);
    assert_eq!(Message::tool_calls(both).content, content);

    let a = vec![("a", "x")];
    let b = vec![("a", "x"), ("b", "y")];
    let both: Vec<_> = a.iter().cloned().chain(b.iter().cloned()).collect();
    let mut content = Message::tool_results(a).content;
    content.extend(Message::tool_results(b).content);
    assert_eq!(Message::tool_results(both).content, content);
}

#[test]
fn replies_echo_the_ids_of_the_calls() {
    let asked = Message::tool_calls(vec![("a", "x", Value::Null), ("b", "y", Value::Null)]);
    let answered = Message::tool_results(vec![("a", "one"), ("b", "two")]);
    assert_eq!(asked.content.len(), answered.content.len());
    for (call, reply) in asked.content.iter().zip(&answered.content) {
        match (call, reply) {
            (ContentBlock::ToolUse { id, .. }, ContentBlock::ToolResult { tool_use_id, .. }) => {
                assert_eq!(id, tool_use_id)
            }
            _ => panic!("expected a call and its reply"),
        }
    }
}

#[test]
fn replies_have_the_parts_of_text_results() {
    let result = motosan_agent_primitives::ToolResult::text("c", "ok");
    assert_eq!(
        Message::tool_results(vec![("c", "ok")]).content,
        vec![ContentBlock::ToolResult {
            tool_use_id: result.tool_use_id,
            content: result.content,
            is_error: result.is_error,
        }]
    );
}

#[test]
fn equal_texts_make_equal_content() {
    let one = Message::text(Role::User, "hi");
    let other = Message::text(Role::User, "hi");
    assert_eq!(one.role, other.role);
    assert_eq!(one.content, other.content);
    assert_ne!(one.id, other.id);
}
