use picrust::llm::codec::{
    decode_message, encode_block, encode_message, message_from_record, message_to_record,
    messages_from_records,
};
use picrust::llm::{ContentBlock, Message, MessageContent, Role};
use picrust::session::SessionMetadata;
use picrust::tools::common::web_fetch::WebFetchInput;
use picrust::tools::WebFetchTool;

fn json(text: &str) -> serde_json::Value {
    serde_json::from_str(text).unwrap()
}

fn every_block() -> Vec<ContentBlock> {
    vec![
        ContentBlock::text("Hello"),
        ContentBlock::tool_use("call_1".to_string(), "bash".to_string(), json("{\"command\":\"ls\"}")),
        ContentBlock::tool_result("call_1", Some("a.txt".to_string()), None),
        ContentBlock::tool_result("call_2", None, Some(true)),
        ContentBlock::Thinking { text: "hmm".to_string() },
        ContentBlock::RedactedThinking,
        ContentBlock::image("AAAA".to_string(), "image/png".to_string()),
        ContentBlock::document("BBBB".to_string(), "application/pdf".to_string()),
        ContentBlock::text(""),
    ]
}

#[test]
fn messages_are_written_as_json() {
    assert_eq!(encode_message(&Message::user("Hello")), json("{\"role\":\"user\",\"content\":\"Hello\"}"));
    assert_eq!(message_to_record(&Message::assistant("Hi there")), "{\"content\":\"Hi there\",\"role\":\"assistant\"}");
    let message = Message::assistant_with_blocks(every_block());
    assert_eq!(
        encode_message(&message),
        json(
            "{\"role\":\"assistant\",\"content\":[
                {\"type\":\"text\",\"text\":\"Hello\"},
                {\"type\":\"tool_use\",\"id\":\"call_1\",\"name\":\"bash\",\"input\":{\"command\":\"ls\"}},
                {\"type\":\"tool_result\",\"tool_use_id\":\"call_1\",\"content\":\"a.txt\"},
                {\"type\":\"tool_result\",\"tool_use_id\":\"call_2\",\"is_error\":true},
                {\"type\":\"thinking\",\"thinking\":\"hmm\"},
                {\"type\":\"redacted_thinking\"},
                {\"type\":\"image\",\"source\":{\"type\":\"base64\",\"media_type\":\"image/png\",\"data\":\"AAAA\"}},
                {\"type\":\"document\",\"source\":{\"type\":\"base64\",\"media_type\":\"application/pdf\",\"data\":\"BBBB\"}},
                {\"type\":\"text\",\"text\":\"\"}
            ]}"
        )
    );
    assert_eq!(encode_block(&ContentBlock::RedactedThinking), json("{\"type\":\"redacted_thinking\"}"));
}

#[test]
fn messages_round_trip_with_order_and_kinds() {
    let message = Message::user_with_blocks(every_block());
    let record = message_to_record(&message);
    assert!(!record.contains('\n'));
    let back = message_from_record(&record).unwrap();
    assert_eq!(back.role, Role::User);
    assert_eq!(format!("{:?}", back), format!("{:?}", message));
    match &back.content {
        MessageContent::Blocks(blocks) => {
            assert_eq!(blocks.len(), 9);
            assert!(matches!(blocks[0], ContentBlock::Text { .. }));
            assert!(matches!(blocks[1], ContentBlock::ToolUse { .. }));
            assert!(matches!(blocks[2], ContentBlock::ToolResult { .. }));
            assert!(matches!(blocks[4], ContentBlock::Thinking { .. }));
            assert!(matches!(blocks[5], ContentBlock::RedactedThinking));
            assert!(matches!(blocks[6], ContentBlock::Image { .. }));
            assert!(matches!(blocks[7], ContentBlock::Document { .. }));
        }
        _ => panic!("expected blocks"),
    }
    let plain = message_from_record(&message_to_record(&Message::assistant("Hi"))).unwrap();
    assert_eq!(plain.role, Role::Assistant);
    assert_eq!(plain.text(), "Hi");
    // Encoding what was decoded gives the same JSON.
    assert_eq!(encode_message(&back), encode_message(&message));
}

#[test]
fn records_that_describe_no_message_are_refused() {
    for bad in [
        "",
        "[]",
        "{\"role\":\"user\"}",
        "{\"content\":\"x\"}",
        "{\"role\":\"system\",\"content\":\"x\"}",
        "{\"role\":\"user\",\"content\":5}",
        "{\"role\":\"user\",\"content\":[{\"type\":\"video\"}]}",
        "{\"role\":\"user\",\"content\":[{\"text\":\"no type\"}]}",
        "{\"role\":\"user\",\"content\":[{\"type\":\"text\"}]}",
        "{\"role\":\"user\",\"content\":[{\"type\":\"tool_use\",\"id\":\"a\",\"name\":\"n\"}]}",
        "{\"role\":\"user\",\"content\":[{\"type\":\"tool_result\",\"tool_use_id\":\"a\",\"is_error\":\"yes\"}]}",
        "{\"role\":\"user\",\"content\":[{\"type\":\"image\",\"source\":{\"data\":\"x\"}}]}",
        "{\"role\":\"user\",\"content\":[\"text\"]}",
    ] {
        assert!(message_from_record(bad).is_none(), "accepted: {}", bad);
    }
    assert!(decode_message(&json("{\"role\":\"user\",\"content\":[]}")).is_some());
    let good = vec!["{\"role\":\"user\",\"content\":\"a\"}".to_string(), "{\"role\":\"assistant\",\"content\":\"b\"}".to_string()];
    let messages = messages_from_records(&good).unwrap();
    assert_eq!(messages.len(), 2);
    assert_eq!(messages[1].text(), "b");
    let mut broken = good.clone();
    broken.push("{not json".to_string());
    assert!(messages_from_records(&broken).is_none());
    assert!(messages_from_records(&Vec::new()).unwrap().is_empty());
}

#[test]
fn test_save_load_metadata() {
    let meta = SessionMetadata::new("test_session", "coder", "Test", "Testing");
    let document = meta.to_document();

    let loaded = SessionMetadata::from_document(&document).unwrap();
    assert_eq!(loaded.session_id, "test_session");
    assert_eq!(loaded.agent_type, "coder");
    assert_eq!(format!("{:?}", loaded), format!("{:?}", meta));
}

#[test]
fn metadata_documents() {
    let mut sub = SessionMetadata::new_subagent("c", "helper", "C", "D", "p", "tool_1").stamped("t0");
    sub.add_child("g1");
    sub.add_child("g2");
    assert_eq!(
        sub.to_json(),
        json("{\"session_id\":\"c\",\"agent_type\":\"helper\",\"name\":\"C\",\"description\":\"D\",\"created_at\":\"t0\",\"updated_at\":\"t0\",\"parent_session_id\":\"p\",\"originating_tool_call_id\":\"tool_1\",\"child_session_ids\":[\"g1\",\"g2\"]}")
    );
    let back = SessionMetadata::from_document(&sub.to_document()).unwrap();
    assert!(back.is_subagent());
    assert_eq!(back.child_session_ids, vec!["g1", "g2"]);
    assert_eq!(back.originating_tool_call_id, Some("tool_1".to_string()));

    let top = SessionMetadata::new("s", "a", "n", "d");
    assert_eq!(
        top.to_json(),
        json("{\"session_id\":\"s\",\"agent_type\":\"a\",\"name\":\"n\",\"description\":\"d\",\"created_at\":\"\",\"updated_at\":\"\",\"child_session_ids\":[]}")
    );
    let minimal = SessionMetadata::from_document("{\"session_id\":\"s\",\"agent_type\":\"a\",\"name\":\"n\",\"description\":\"d\",\"created_at\":\"1\",\"updated_at\":\"2\",\"parent_session_id\":null}").unwrap();
    assert!(!minimal.is_subagent());
    assert!(minimal.child_session_ids.is_empty());
    for bad in [
        "",
        "{}",
        "{\"session_id\":\"s\",\"agent_type\":\"a\",\"name\":\"n\",\"description\":\"d\",\"created_at\":\"1\"}",
        "{\"session_id\":\"s\",\"agent_type\":\"a\",\"name\":\"n\",\"description\":\"d\",\"created_at\":\"1\",\"updated_at\":\"2\",\"parent_session_id\":7}",
        "{\"session_id\":\"s\",\"agent_type\":\"a\",\"name\":\"n\",\"description\":\"d\",\"created_at\":\"1\",\"updated_at\":\"2\",\"child_session_ids\":[1]}",
        "{\"session_id\":\"s\",\"agent_type\":\"a\",\"name\":\"n\",\"description\":\"d\",\"created_at\":\"1\",\"updated_at\":\"2\",\"child_session_ids\":\"x\"}",
    ] {
        assert!(SessionMetadata::from_document(bad).is_none(), "accepted: {}", bad);
    }
}

#[test]
fn web_fetch_input_and_requests() {
    let tool = WebFetchTool::with_api_key("k");
    let input: WebFetchInput = tool
        .parse_input(&json("{\"url\":\"http://a\",\"formats\":[\"html\"],\"limit\":3,\"description\":\"d\"}"))
        .unwrap();
    assert_eq!(input.url, Some("http://a".to_string()));
    assert_eq!(input.query, None);
    assert_eq!(input.formats, Some(vec!["html".to_string()]));
    assert_eq!(input.limit, Some(3));
    assert_eq!(input.description, Some("d".to_string()));
    let empty = tool.parse_input(&json("{}")).unwrap();
    assert_eq!((empty.url, empty.query, empty.formats, empty.limit), (None, None, None, None));
    for bad in ["{\"url\":1}", "{\"formats\":[1]}", "{\"formats\":\"markdown\"}", "{\"limit\":-1}", "{\"limit\":4294967296}", "{\"description\":[]}"] {
        assert!(tool.parse_input(&json(bad)).unwrap_err().starts_with("Invalid web fetch input: "), "{}", bad);
    }
    assert_eq!(
        json(&tool.scrape_request_body("http://a", &vec!["markdown".to_string(), "links".to_string()])),
        json("{\"url\":\"http://a\",\"formats\":[\"markdown\",\"links\"]}")
    );
    assert_eq!(json(&tool.search_request_body("rust", 5)), json("{\"query\":\"rust\",\"limit\":5}"));
}

#[test]
fn web_fetch_answers() {
    let tool = WebFetchTool::with_api_key("k");
    let page = "{\"success\":true,\"data\":{\"markdown\":\"Body\",\"metadata\":{\"title\":\"T\",\"sourceURL\":\"http://a\",\"statusCode\":200}}}";
    assert_eq!(tool.read_scrape(true, "200 OK", page), Ok("# T\n\nSource: http://a\n\n---\n\nBody".to_string()));
    assert_eq!(
        tool.read_scrape(false, "402 Payment Required", "pay"),
        Err("Firecrawl API error (402 Payment Required): pay".to_string())
    );
    assert_eq!(
        tool.read_scrape(true, "200 OK", "{\"success\":false,\"error\":\"blocked\"}"),
        Err("Firecrawl scrape failed: blocked".to_string())
    );
    assert_eq!(
        tool.read_scrape(true, "200 OK", "{\"success\":false}"),
        Err("Firecrawl scrape failed: Unknown error".to_string())
    );
    assert_eq!(tool.read_scrape(true, "200 OK", "{\"success\":true}"), Err("No data in response".to_string()));
    assert_eq!(tool.read_scrape(true, "200 OK", "{\"success\":true,\"data\":null}"), Err("No data in response".to_string()));
    for bad in ["<html>", "{}", "{\"success\":\"yes\"}", "{\"success\":true,\"data\":5}", "{\"success\":true,\"data\":{\"markdown\":1}}", "{\"success\":true,\"error\":1,\"data\":{}}"] {
        assert_eq!(tool.read_scrape(true, "200 OK", bad), Err("Failed to parse response".to_string()), "{}", bad);
    }
    assert_eq!(tool.read_scrape(true, "200 OK", "{\"success\":true,\"data\":{}}"), Ok(String::new()));

    let found = "{\"success\":true,\"data\":{\"web\":[{\"title\":\"Rust\",\"url\":\"http://r\",\"description\":\"A language\"},{\"url\":\"http://n\"}]}}";
    assert_eq!(
        tool.read_search("rust", true, "200 OK", found),
        Ok("# Search Results for: rust\n\nFound 2 results:\n\n## 1. Rust\nURL: http://r\n\nA language\n\n## 2. No title\nURL: http://n\n\n".to_string())
    );
    assert_eq!(
        tool.read_search("q", true, "200 OK", "{\"success\":true,\"data\":{}}"),
        Ok("# Search Results for: q\n\nNo results found.\n".to_string())
    );
    assert_eq!(
        tool.read_search("q", true, "200 OK", "{\"success\":false,\"error\":\"quota\"}"),
        Err("Firecrawl search failed: quota".to_string())
    );
    assert_eq!(
        tool.read_search("q", false, "500", "down"),
        Err("Firecrawl API error (500): down".to_string())
    );
    assert_eq!(tool.read_search("q", true, "200 OK", "{\"success\":true}"), Err("No data in response".to_string()));
    for bad in ["nope", "{\"success\":true,\"data\":{\"web\":{}}}", "{\"success\":true,\"data\":{\"web\":[{\"title\":\"no url\"}]}}", "{\"success\":true,\"data\":[]}"] {
        assert_eq!(tool.read_search("q", true, "200 OK", bad), Err("Failed to parse response".to_string()), "{}", bad);
    }
}
