use motosan_agent_primitives::message::ContentBlock;
use motosan_agent_primitives::{Wire, WireError};

fn parsed(text: &str) -> Result<serde_json::Value, WireError> {
    serde_json::from_str(text).map_err(|_| WireError::Malformed)
}

/// The text of a value's document, and the value that a text's document holds.
trait Text: Wire {
    fn to_json(&self) -> String {
        self.to_value().to_string()
    }

    fn from_json(text: &str) -> Result<Self, WireError> {
        Self::from_value(parsed(text)?)
    }
}

impl<T: Wire> Text for T {}

fn load(name: &str) -> &'static str {
    match name {
        "text.json" => "{ \"type\": \"text\", \"text\": \"Hello, world!\" }",
        "image_base64.json" => {
            "{\n  \"type\": \"image\",\n  \"source\": {\n    \"type\": \"base64\",\n    \"media_type\": \"image/png\",\n    \"data\": \"iVBORw0KGgo=\"\n  }\n}"
        }
        "image_url.json" => {
            "{ \"type\": \"image\", \"source\": { \"type\": \"url\", \"url\": \"https://example.com/cat.png\" } }"
        }
        "document.json" => {
            "{ \"type\": \"document\", \"source\": { \"type\": \"base64\", \"media_type\": \"application/pdf\", \"data\": \"JVBERi0=\" } }"
        }
        "tool_use.json" => {
            "{ \"type\": \"tool_use\", \"id\": \"call_1\", \"name\": \"get_weather\", \"input\": { \"location\": \"Taipei\" } }"
        }
        "tool_result.json" => {
            "{ \"type\": \"tool_result\", \"tool_use_id\": \"call_1\", \"content\": [ { \"type\": \"text\", \"text\": \"sunny\" } ] }"
        }
        "tool_result_error.json" => {
            "{ \"type\": \"tool_result\", \"tool_use_id\": \"call_1\", \"content\": [ { \"type\": \"text\", \"text\": \"boom\" } ], \"is_error\": true }"
        }
        _ => panic!("no fixture {name}"),
    }
}

fn parse(name: &str) -> ContentBlock {
    ContentBlock::from_json(load(name)).unwrap_or_else(|e| panic!("parse {name}: {e:?}"))
}

#[test]
fn text_fixture_parses() {
    assert!(matches!(parse("text.json"), ContentBlock::Text { .. }));
}

#[test]
fn image_base64_fixture_parses() {
    assert!(matches!(parse("image_base64.json"), ContentBlock::Image { .. }));
}

#[test]
fn image_url_fixture_parses() {
    assert!(matches!(parse("image_url.json"), ContentBlock::Image { .. }));
}

#[test]
fn document_fixture_parses() {
    assert!(matches!(parse("document.json"), ContentBlock::Document { .. }));
}

#[test]
fn tool_use_fixture_parses() {
    assert!(matches!(parse("tool_use.json"), ContentBlock::ToolUse { .. }));
}

#[test]
fn tool_result_fixture_parses() {
    let b = parse("tool_result.json");
    match b {
        ContentBlock::ToolResult { is_error, .. } => assert!(!is_error),
        _ => panic!("expected ToolResult"),
    }
}

#[test]
fn tool_result_error_fixture_parses() {
    let b = parse("tool_result_error.json");
    match b {
        ContentBlock::ToolResult { is_error, .. } => assert!(is_error),
        _ => panic!("expected ToolResult"),
    }
}

#[test]
fn all_fixtures_round_trip() {
    for name in [
        "text.json",
        "image_base64.json",
        "image_url.json",
        "document.json",
        "tool_use.json",
        "tool_result.json",
        "tool_result_error.json",
    ] {
        let parsed = ContentBlock::from_json(load(name)).unwrap();
        let reserialized = parsed.to_json();
        let reparsed = ContentBlock::from_json(&reserialized).unwrap();
        assert_eq!(parsed, reparsed, "{name} did not round-trip");
    }
}
