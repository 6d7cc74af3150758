use picrust::llm::ToolDefinition;
use picrust::tools::bash::BashInput;
use picrust::tools::common::read_tool::{file_kind, list_lines, FileKind};
use picrust::tools::common::web_fetch::{
    FetchPlan, ScrapeData, ScrapeMetadata, SearchResult, WebFetchInput,
};
use picrust::tools::file_edit::FileCommand;
use picrust::tools::{
    new_todo_list, BashTool, FileEditTool, ReadTool, Tool, ToolRegistry, ToolResult, ToolResultData,
    TodoTool, WebFetchTool,
};

fn json(text: &str) -> serde_json::Value {
    serde_json::from_str(text).unwrap()
}

fn text_of(result: &ToolResult) -> String {
    match &result.content {
        ToolResultData::Text(t) => t.clone(),
        _ => panic!("expected text"),
    }
}

fn custom(definition: ToolDefinition) -> picrust::llm::CustomTool {
    match definition {
        ToolDefinition::Custom(c) => c,
        _ => panic!("expected a custom tool"),
    }
}

#[test]
fn test_todo_tool() {
    let todos = new_todo_list();
    let mut tool = TodoTool::new(todos);

    let input = json(
        "{\"todos\": [
            {\"index\": 1, \"completed\": false, \"task\": \"First task\"},
            {\"index\": 2, \"completed\": true, \"task\": \"Second task\", \"additional_details\": \"Some details\"}
        ]}",
    );

    let result = tool.update(&input).unwrap();
    assert!(!result.is_error);
    assert!(text_of(&result).contains("First task"));
    assert!(text_of(&result).contains("Second task"));

    // Check the state
    let list = tool.get_todos();
    assert_eq!(list.len(), 2);
    assert!(!list[0].completed);
    assert!(list[1].completed);

    assert_eq!(
        tool.format_todos(),
        "Todo List:\n  [ ] 1. First task\n  [x] 2. Second task\n      Details: Some details\n"
    );
    assert_eq!(text_of(&result), tool.format_todos());
}

#[test]
fn todo_edges() {
    let mut tool = TodoTool::new(new_todo_list());
    assert_eq!(tool.format_todos(), "No tasks in the todo list.");
    assert!(tool.get_todos().is_empty());
    tool.update(&json("{\"todos\":[{\"index\":7,\"completed\":false,\"task\":\"t\",\"additional_details\":null}]}")).unwrap();
    assert_eq!(tool.get_todos()[0].index, 7);
    assert_eq!(tool.get_todos()[0].additional_details, None);
    for bad in [
        "{}",
        "{\"todos\": 5}",
        "{\"todos\":[{\"index\":1,\"completed\":false}]}",
        "{\"todos\":[{\"index\":-1,\"completed\":false,\"task\":\"t\"}]}",
        "{\"todos\":[{\"index\":4294967296,\"completed\":false,\"task\":\"t\"}]}",
        "{\"todos\":[{\"index\":1,\"completed\":\"no\",\"task\":\"t\"}]}",
        "{\"todos\":[{\"index\":1,\"completed\":false,\"task\":\"t\",\"additional_details\":3}]}",
        "{\"todos\":[{\"index\":1,\"completed\":false,\"task\":\"ok\"}, 3]}",
    ] {
        let err = tool.update(&json(bad)).unwrap_err();
        assert!(err.starts_with("Invalid todo input: "), "{}", bad);
        // An input that is refused changes nothing.
        assert_eq!(tool.get_todos().len(), 1);
    }
    tool.update(&json("{\"todos\":[]}")).unwrap();
    assert_eq!(tool.format_todos(), "No tasks in the todo list.");
    assert_eq!(tool.name(), "todo");
    assert!(!tool.requires_permission());
    let info = tool.get_info(&json("{\"todos\":[1,2,3]}"));
    assert_eq!(info.action_description, "Update todo list (3 items)");
    assert_eq!(tool.get_info(&json("{}")).action_description, "Update todo list (0 items)");
    let definition = custom(tool.definition());
    assert_eq!(definition.name, "todo");
    assert_eq!(definition.description, Some(tool.description()));
    assert_eq!(definition.input_schema.schema_type, "object");
    assert_eq!(definition.input_schema.required, Some(vec!["todos".to_string()]));
    let properties = definition.input_schema.properties.unwrap();
    assert_eq!(properties["todos"]["type"], "array");
    assert_eq!(properties["todos"]["items"]["required"], json("[\"index\",\"completed\",\"task\"]"));
}

#[test]
fn test_echo_command() {
    // What the shell gave for `echo 'hello world'`.
    let tool = BashTool::with_working_dir(".");
    let input = tool.parse_input(&json("{ \"command\": \"echo 'hello world'\" }")).unwrap();
    assert_eq!(input.command, "echo 'hello world'");
    let output = tool.combine_output("hello world\n", "");
    let result = tool.result_for(&output, 0);
    assert!(!result.is_error);
    assert!(text_of(&result).contains("hello world"));
}

#[test]
fn test_failing_command() {
    // What the shell gave for `exit 1`.
    let tool = BashTool::with_working_dir(".");
    let input = tool.parse_input(&json("{ \"command\": \"exit 1\" }")).unwrap();
    assert_eq!(input.command, "exit 1");
    let output = tool.combine_output("", "");
    let result = tool.result_for(&output, 1);
    assert!(result.is_error);
    assert!(text_of(&result).contains("exit code 1"));
    assert_eq!(text_of(&result), "Command failed with exit code 1\n");
}

#[test]
fn bash_output_and_results() {
    let tool = BashTool::default().with_max_output_length(10);
    assert_eq!(tool.combine_output("out", ""), "out");
    assert_eq!(tool.combine_output("", "bad"), "STDERR:\nba\n... (output truncated)");
    let wide = BashTool::with_working_dir("/w");
    assert_eq!(wide.combine_output("", "bad"), "STDERR:\nbad");
    assert_eq!(wide.combine_output("out", "bad"), "out\nSTDERR:\nbad");
    assert_eq!(wide.combine_output("", ""), "");
    assert_eq!(tool.combine_output("0123456789", ""), "0123456789");
    assert_eq!(tool.combine_output("0123456789a", ""), "0123456789\n... (output truncated)");
    assert_eq!(tool.combine_output("ééééééééééé", ""), "éééééééééé\n... (output truncated)");

    assert_eq!(text_of(&wide.result_for("", 0)), "Command completed successfully (no output)");
    assert_eq!(text_of(&wide.result_for("x", -1)), "Command failed with exit code -1\nx");
    assert_eq!(
        text_of(&wide.result_for("", i32::MIN)),
        "Command failed with exit code -2147483648\n"
    );
    assert_eq!(text_of(&wide.result_for("", 127)), "Command failed with exit code 127\n");
    let failure = wide.result_for_failure("No such file or directory");
    assert!(failure.is_error);
    assert_eq!(text_of(&failure), "Failed to execute command: No such file or directory");
}

#[test]
fn bash_input_and_info() {
    let tool = BashTool::with_working_dir("/project");
    let input = tool.parse_input(&json("{\"command\":\"ls\",\"working_dir\":\"/tmp\"}")).unwrap();
    assert_eq!(input.working_dir, Some("/tmp".to_string()));
    assert_eq!(tool.working_dir_for(&input), "/tmp");
    let plain = BashInput { command: "ls".to_string(), working_dir: None };
    assert_eq!(tool.working_dir_for(&plain), "/project");
    for bad in ["{}", "{\"command\": 5}", "{\"command\":\"ls\",\"working_dir\":1}", "[]"] {
        assert!(tool.parse_input(&json(bad)).unwrap_err().starts_with("Invalid bash input: "));
    }
    assert!(tool.parse_input(&json("{\"command\":\"ls\",\"working_dir\":null}")).is_ok());

    let info = tool.get_info(&json("{\"command\":\"cargo test\"}"));
    assert_eq!(info.name, "bash");
    assert_eq!(info.action_description, "Execute command: cargo test");
    assert_eq!(info.details, Some("Working directory: /project".to_string()));
    let info = tool.get_info(&json("{\"working_dir\":\"/x\"}"));
    assert_eq!(info.action_description, "Execute command: <unknown command>");
    assert_eq!(info.details, Some("Working directory: /x".to_string()));
    assert_eq!(tool.name(), "bash");
    assert!(tool.requires_permission());
    let definition = custom(tool.definition());
    assert_eq!(definition.name, "bash");
    assert_eq!(definition.description, Some(tool.description()));
    assert_eq!(definition.input_schema.required, Some(vec!["command".to_string()]));
    assert_eq!(definition.input_schema.properties.unwrap()["command"]["type"], "string");
}

#[test]
fn test_create_and_view_file() {
    let tool = FileEditTool::with_base_dir("/tmp/work");

    // Create a file
    let create_input = json("{\"command\": \"create\", \"path\": \"test.txt\", \"content\": \"Hello\\nWorld\\nTest\"}");
    let content = match tool.parse_command(&create_input).unwrap() {
        FileCommand::Create { path, content } => {
            assert_eq!(tool.resolve_path(&path), "/tmp/work/test.txt");
            let result = tool.result_of(&Ok(tool.create_file(&path)));
            assert!(!result.is_error);
            assert_eq!(text_of(&result), "File created successfully: test.txt");
            content
        }
        _ => panic!("expected create"),
    };

    // View the file
    let view_input = json("{\"command\": \"view\", \"path\": \"test.txt\"}");
    match tool.parse_command(&view_input).unwrap() {
        FileCommand::View { path, start_line, end_line } => {
            let result = tool.result_of(&Ok(tool.view_file(&path, &content, start_line, end_line)));
            assert!(!result.is_error);
            assert!(text_of(&result).contains("Hello"));
            assert!(text_of(&result).contains("World"));
            assert_eq!(
                text_of(&result),
                "File: test.txt (3 lines total)\nShowing lines 1-3:\n\n   1 | Hello\n   2 | World\n   3 | Test\n"
            );
        }
        _ => panic!("expected view"),
    }
}

#[test]
fn test_str_replace() {
    let tool = FileEditTool::with_base_dir("/tmp/work");
    let input = json("{\"command\": \"str_replace\", \"path\": \"test.txt\", \"old_str\": \"World\", \"new_str\": \"Rust\"}");
    match tool.parse_command(&input).unwrap() {
        FileCommand::StrReplace { path, old_str, new_str } => {
            let (content, report) = tool.str_replace(&path, "Hello World", &old_str, &new_str).unwrap();
            assert_eq!(content, "Hello Rust");
            let result = tool.result_of(&Ok(report));
            assert!(!result.is_error);
            assert_eq!(
                text_of(&result),
                "Successfully replaced text in test.txt. The string was replaced 1 time."
            );
        }
        _ => panic!("expected str_replace"),
    }
}

#[test]
fn test_glob_search() {
    let tool = FileEditTool::with_base_dir(".");
    let input = json("{\"command\": \"glob\", \"pattern\": \"*.toml\"}");
    match tool.parse_command(&input).unwrap() {
        FileCommand::Glob { pattern } => {
            assert_eq!(tool.glob_pattern(&pattern), "./*.toml");
            let found = vec![tool.glob_entry("./Cargo.toml")];
            let result = tool.result_of(&Ok(tool.glob_search(&pattern, &found)));
            assert!(!result.is_error);
            assert!(text_of(&result).contains("Cargo.toml") || text_of(&result).contains("No files found"));
            assert_eq!(text_of(&result), "Found 1 files matching '*.toml':\n  Cargo.toml\n");
            assert_eq!(
                tool.glob_search(&pattern, &Vec::new()),
                "No files found matching pattern: *.toml"
            );
        }
        _ => panic!("expected glob"),
    }
}

#[test]
fn file_edit_edges() {
    let tool = FileEditTool::default().with_max_file_size(10);
    assert!(tool.check_size(10).is_ok());
    assert_eq!(
        tool.check_size(11).unwrap_err(),
        "File too large (11 bytes). Maximum allowed: 10 bytes"
    );
    assert!(FileEditTool::with_base_dir("/b").check_size(1_000_000).is_ok());
    assert!(FileEditTool::with_base_dir("/b").check_size(1_000_001).is_err());

    let content = "a\nb\nc\nd\n";
    assert_eq!(
        tool.view_file("f", content, Some(2), Some(3)),
        "File: f (4 lines total)\nShowing lines 2-3:\n\n   2 | b\n   3 | c\n"
    );
    assert_eq!(
        tool.view_file("f", content, Some(0), Some(99)),
        "File: f (4 lines total)\nShowing lines 1-4:\n\n   1 | a\n   2 | b\n   3 | c\n   4 | d\n"
    );
    assert_eq!(
        tool.view_file("f", content, Some(5), None),
        "File has 4 lines. Requested start line 5 is out of range."
    );
    assert_eq!(
        tool.view_file("f", "", None, None),
        "File has 0 lines. Requested start line 1 is out of range."
    );
    // An end before the start shows no line.
    assert_eq!(tool.view_file("f", content, Some(3), Some(1)), "File: f (4 lines total)\nShowing lines 3-1:\n\n");

    assert_eq!(
        tool.str_replace("f", "aaa", "b", "c").unwrap_err(),
        "String not found in file. Make sure to include exact text including whitespace."
    );
    assert_eq!(
        tool.str_replace("f", "abab", "ab", "c").unwrap_err(),
        "Found 2 occurrences of the string. Please provide a more specific string to ensure only one match."
    );

    assert_eq!(tool.insert_at_line("f", "a\nb\n", 2, "X").0, "a\nX\nb");
    assert_eq!(tool.insert_at_line("f", "a\nb\n", 0, "X").0, "X\na\nb");
    assert_eq!(tool.insert_at_line("f", "a\nb\n", 1, "X").0, "X\na\nb");
    assert_eq!(tool.insert_at_line("f", "a\nb\n", 99, "X").0, "a\nb\nX");
    assert_eq!(tool.insert_at_line("f", "", 5, "X").0, "X");
    assert_eq!(tool.insert_at_line("f", "a", 3, "X").1, "Successfully inserted text at line 3 in f");

    assert_eq!(tool.glob_pattern("/abs/*.rs"), "/abs/*.rs");
    assert_eq!(tool.glob_pattern("src/**/*.rs"), "./src/**/*.rs");
    let based = FileEditTool::with_base_dir("/repo");
    assert_eq!(based.glob_entry("/repo/src/a.rs"), "src/a.rs");
    assert_eq!(based.glob_entry("/other/a.rs"), "/other/a.rs");
    let many: Vec<String> = (0..103).map(|i| format!("f{}", i)).collect();
    let report = based.glob_search("*", &many);
    assert!(report.starts_with("Found 103 files matching '*':\n  f0\n  f1\n"));
    assert!(report.ends_with("  f99\n  ... and 3 more\n"));
    let exactly: Vec<String> = (0..100).map(|i| format!("f{}", i)).collect();
    assert!(based.glob_search("*", &exactly).ends_with("  f99\n"));

    let failed = tool.result_of(&Err("nope".to_string()));
    assert!(failed.is_error);
    assert_eq!(text_of(&failed), "nope");
}

#[test]
fn file_edit_commands_and_info() {
    let tool = FileEditTool::with_base_dir("/b");
    match tool.parse_command(&json("{\"command\":\"insert\",\"path\":\"p\",\"line\":4,\"content\":\"c\"}")).unwrap() {
        FileCommand::Insert { path, line, content } => {
            assert_eq!((path.as_str(), line, content.as_str()), ("p", 4, "c"));
        }
        _ => panic!("expected insert"),
    }
    match tool.parse_command(&json("{\"command\":\"view\",\"path\":\"p\",\"start_line\":2,\"end_line\":null}")).unwrap() {
        FileCommand::View { start_line, end_line, .. } => {
            assert_eq!(start_line, Some(2));
            assert_eq!(end_line, None);
        }
        _ => panic!("expected view"),
    }
    for bad in [
        "{}",
        "{\"command\":\"delete\",\"path\":\"p\"}",
        "{\"command\":\"view\"}",
        "{\"command\":\"view\",\"path\":\"p\",\"start_line\":\"1\"}",
        "{\"command\":\"create\",\"path\":\"p\"}",
        "{\"command\":\"str_replace\",\"path\":\"p\",\"old_str\":\"a\"}",
        "{\"command\":\"glob\"}",
        "{\"command\":\"insert\",\"path\":\"p\",\"content\":\"c\"}",
    ] {
        assert!(
            tool.parse_command(&json(bad)).unwrap_err().starts_with("Invalid file_edit input: "),
            "{}",
            bad
        );
    }
    let info = |text: &str| {
        let i = tool.get_info(&json(text));
        (i.action_description, i.details)
    };
    assert_eq!(info("{\"command\":\"view\",\"path\":\"a\"}"), ("View file".to_string(), Some("Path: a".to_string())));
    assert_eq!(info("{\"command\":\"create\"}"), ("Create file".to_string(), Some("Path: ?".to_string())));
    assert_eq!(info("{\"command\":\"str_replace\",\"path\":\"a\"}"), ("Replace text in file".to_string(), Some("Path: a".to_string())));
    assert_eq!(info("{\"command\":\"glob\",\"pattern\":\"*.rs\"}"), ("Search files".to_string(), Some("Pattern: *.rs".to_string())));
    assert_eq!(info("{\"command\":\"insert\",\"path\":\"a\",\"line\":12}"), ("Insert text in file".to_string(), Some("Path: a, Line: 12".to_string())));
    assert_eq!(info("{\"command\":\"insert\",\"path\":\"a\"}"), ("Insert text in file".to_string(), Some("Path: a, Line: 0".to_string())));
    assert_eq!(info("{\"command\":\"chmod\"}"), ("Unknown file operation".to_string(), None));
    assert_eq!(info("{}"), ("Unknown file operation".to_string(), None));
    assert_eq!(tool.name(), "file_edit");
    assert!(tool.requires_permission());
    let definition = custom(tool.definition());
    assert_eq!(definition.description, Some(tool.description()));
    let properties = definition.input_schema.properties.unwrap();
    assert_eq!(properties["command"]["enum"], json("[\"view\",\"create\",\"str_replace\",\"glob\",\"insert\"]"));
    assert_eq!(properties["line"]["type"], "integer");
}

#[test]
fn read_tool_lists_lines() {
    let tool = ReadTool::with_base_dir("/base");
    assert_eq!(tool.resolve_path("a/b.txt"), "/base/a/b.txt");
    assert_eq!(tool.resolve_path("/abs.txt"), "/abs.txt");
    assert_eq!(ReadTool::default().resolve_path("x"), "./x");
    let (resolved, kind) = tool.read_file("pic.JPG");
    assert_eq!(resolved, "/base/pic.JPG");
    assert_eq!(kind, FileKind::Image);
    assert_eq!(file_kind("/a/b.pdf"), FileKind::Pdf);
    assert_eq!(file_kind("/a/b.gif"), FileKind::Image);
    assert_eq!(file_kind("/a/b.tar.gz"), FileKind::Text);
    assert_eq!(file_kind("/a.png/b"), FileKind::Text);

    let content = "one\ntwo\nthree\nfour\n";
    assert_eq!(
        text_of(&tool.read_text_file(content, None, None)),
        "     1\tone\n     2\ttwo\n     3\tthree\n     4\tfour\n"
    );
    assert_eq!(
        text_of(&tool.read_text_file(content, Some(2), Some(2))),
        "     2\ttwo\n     3\tthree\n\n... (1 more lines, use offset and limit to read more)\n"
    );
    assert_eq!(
        text_of(&tool.read_text_file(content, Some(0), Some(1))),
        "     1\tone\n\n... (3 more lines, use offset and limit to read more)\n"
    );
    assert_eq!(
        text_of(&tool.read_text_file(content, Some(5), None)),
        "File has 4 lines. Requested offset 5 is out of range."
    );
    assert_eq!(
        text_of(&tool.read_text_file(content, Some(usize::MAX), Some(usize::MAX))),
        format!("File has 4 lines. Requested offset {} is out of range.", usize::MAX)
    );
    assert_eq!(text_of(&tool.read_text_file(content, Some(4), Some(usize::MAX))), "     4\tfour\n");
    assert_eq!(
        text_of(&tool.read_text_file(content, Some(1), Some(0))),
        "\n... (4 more lines, use offset and limit to read more)\n"
    );
    let long_line = "y".repeat(2001);
    let listed = list_lines(&vec![long_line.clone(), "y".repeat(2000)], None, None);
    assert_eq!(listed, format!("     1\t{}...\n     2\t{}\n", "y".repeat(2000), "y".repeat(2000)));
    let numbered: Vec<String> = (0..1_000_000).map(|_| String::new()).collect();
    let tail = list_lines(&numbered, Some(999_999), Some(2));
    assert_eq!(tail, "999999\t\n1000000\t\n");
}

#[test]
fn read_tool_images_pdfs_input_and_info() {
    let tool = ReadTool::with_base_dir("/base");
    assert!(tool.check_image_size(5 * 1024 * 1024).is_none());
    let too_large = tool.check_image_size(5 * 1024 * 1024 + 1).unwrap();
    assert!(too_large.is_error);
    assert_eq!(text_of(&too_large), "Image file too large: 5242881 bytes (max: 5242880 bytes)");
    assert!(tool.check_pdf_size(32 * 1024 * 1024).is_none());
    assert_eq!(
        text_of(&tool.check_pdf_size(40_000_000).unwrap()),
        "PDF file too large: 40000000 bytes (max: 33554432 bytes)"
    );
    match tool.read_image("/x/a.jpg", vec![9, 8]).content {
        ToolResultData::Image { data, media_type } => {
            assert_eq!(data, vec![9, 8]);
            assert_eq!(media_type, "image/jpeg");
        }
        _ => panic!("expected an image"),
    }
    match tool.read_image("/x/a.bin", vec![]).content {
        ToolResultData::Image { media_type, .. } => assert_eq!(media_type, "application/octet-stream"),
        _ => panic!("expected an image"),
    }
    match tool.read_pdf("/x/a.pdf", vec![1], "1.5KB").content {
        ToolResultData::Document { data, media_type, description } => {
            assert_eq!(data, vec![1]);
            assert_eq!(media_type, "application/pdf");
            assert_eq!(description, "PDF file read: /x/a.pdf (1.5KB)");
        }
        _ => panic!("expected a document"),
    }

    let input = tool.parse_input(&json("{\"file_path\":\"/a\",\"offset\":3,\"limit\":10}")).unwrap();
    assert_eq!((input.file_path.as_str(), input.offset, input.limit), ("/a", Some(3), Some(10)));
    let input = tool.parse_input(&json("{\"file_path\":\"/a\",\"limit\":null}")).unwrap();
    assert_eq!((input.offset, input.limit), (None, None));
    for bad in ["{}", "{\"file_path\":1}", "{\"file_path\":\"a\",\"offset\":-1}", "{\"file_path\":\"a\",\"limit\":1.5}"] {
        assert!(tool.parse_input(&json(bad)).unwrap_err().starts_with("Invalid read input: "));
    }
    assert_eq!(tool.get_info(&json("{\"file_path\":\"/a\"}")).action_description, "Read file: /a");
    assert_eq!(tool.get_info(&json("{}")).action_description, "Read file: ?");
    assert_eq!(tool.name(), "Read");
    assert!(!tool.requires_permission());
    let definition = custom(tool.definition());
    assert_eq!(definition.name, "Read");
    assert!(definition.description.unwrap().starts_with("Reads a file from the local filesystem."));
    assert_eq!(definition.input_schema.required, Some(vec!["file_path".to_string()]));
    assert_eq!(definition.input_schema.properties.unwrap()["offset"]["type"], "number");
}

fn plan_of(input: WebFetchInput) -> FetchPlan {
    WebFetchTool::with_api_key("fc-key").plan(input)
}

fn fetch_input(url: Option<&str>, query: Option<&str>, limit: Option<u32>) -> WebFetchInput {
    WebFetchInput {
        url: url.map(|s| s.to_string()),
        query: query.map(|s| s.to_string()),
        formats: None,
        limit,
        description: None,
    }
}

#[test]
fn web_fetch_plans() {
    match plan_of(fetch_input(Some("http://a"), Some("q"), None)) {
        FetchPlan::Scrape { url, formats } => {
            assert_eq!(url, "http://a");
            assert_eq!(formats, vec!["markdown"]);
        }
        _ => panic!("expected a scrape"),
    }
    let mut with_formats = fetch_input(Some("http://a"), None, None);
    with_formats.formats = Some(vec!["html".to_string(), "links".to_string()]);
    match plan_of(with_formats) {
        FetchPlan::Scrape { formats, .. } => assert_eq!(formats, vec!["html", "links"]),
        _ => panic!("expected a scrape"),
    }
    for (limit, expected) in [(None, 5), (Some(3), 3), (Some(10), 10), (Some(11), 10), (Some(0), 0)] {
        match plan_of(fetch_input(None, Some("rust"), limit)) {
            FetchPlan::Search { query, limit } => {
                assert_eq!(query, "rust");
                assert_eq!(limit, expected);
            }
            _ => panic!("expected a search"),
        }
    }
    assert!(matches!(plan_of(fetch_input(None, None, Some(3))), FetchPlan::Nothing));
    let tool = WebFetchTool::with_api_key("fc-key");
    let nothing = tool.nothing_result();
    assert!(nothing.is_error);
    assert_eq!(text_of(&nothing), "Either 'url' or 'query' parameter is required");
    assert_eq!(tool.authorization_header(), "Bearer fc-key");
}

#[test]
fn web_fetch_output() {
    let tool = WebFetchTool::with_api_key("k");
    let page = ScrapeData {
        markdown: Some("Body".to_string()),
        html: Some("<p>ignored</p>".to_string()),
        metadata: Some(ScrapeMetadata {
            title: Some("Title".to_string()),
            description: None,
            source_url: Some("http://a".to_string()),
        }),
    };
    assert_eq!(tool.scrape(&page), "# Title\n\nSource: http://a\n\n---\n\nBody");
    let html_only = ScrapeData { markdown: None, html: Some("h".repeat(5001)), metadata: None };
    assert_eq!(
        tool.scrape(&html_only),
        format!("(HTML content returned, markdown not available)\n\n{}...", "h".repeat(5000))
    );
    let nothing = ScrapeData {
        markdown: None,
        html: None,
        metadata: Some(ScrapeMetadata { title: None, description: Some("d".to_string()), source_url: None }),
    };
    assert_eq!(tool.scrape(&nothing), "> d\n\n---\n\n");
    let huge = ScrapeData { markdown: Some("m".repeat(100_001)), html: None, metadata: None };
    assert_eq!(tool.scrape(&huge), format!("{}\n\n... (content truncated)", "m".repeat(100_000)));

    let results = Some(vec![
        SearchResult { title: Some("Rust".to_string()), url: "http://r".to_string(), description: Some("A language".to_string()) },
        SearchResult { title: None, url: "http://n".to_string(), description: None },
    ]);
    assert_eq!(
        tool.search("rust lang", &results),
        "# Search Results for: rust lang\n\nFound 2 results:\n\n## 1. Rust\nURL: http://r\n\nA language\n\n## 2. No title\nURL: http://n\n\n"
    );
    assert_eq!(tool.search("q", &None), "# Search Results for: q\n\nNo results found.\n");
    assert_eq!(tool.search("q", &Some(Vec::new())), "# Search Results for: q\n\nFound 0 results:\n\n");

    assert_eq!(text_of(&tool.scrape_result(&Ok("page".to_string()))), "page");
    let failed = tool.scrape_result(&Err("timeout".to_string()));
    assert!(failed.is_error);
    assert_eq!(text_of(&failed), "Scrape failed: timeout");
    assert_eq!(text_of(&tool.search_result(&Err("timeout".to_string()))), "Search failed: timeout");
    assert!(!tool.search_result(&Ok("r".to_string())).is_error);

    let info = tool.get_info(&json("{\"url\":\"http://a\",\"query\":\"q\"}"));
    assert_eq!(info.action_description, "Fetch: http://a");
    assert_eq!(info.details, Some("URL: http://a".to_string()));
    let info = tool.get_info(&json("{\"query\":\"q\",\"description\":\"Find docs\"}"));
    assert_eq!(info.action_description, "Find docs");
    assert_eq!(info.details, Some("Query: q".to_string()));
    let info = tool.get_info(&json("{}"));
    assert_eq!(info.action_description, "WebFetch");
    assert_eq!(info.details, None);
    assert_eq!(tool.name(), "WebFetch");
    assert!(!tool.requires_permission());
    let definition = custom(tool.definition());
    assert_eq!(definition.input_schema.required, Some(Vec::new()));
    assert_eq!(definition.input_schema.properties.unwrap()["formats"]["items"]["type"], "string");
}

struct Plain;

impl Tool for Plain {
    fn name(&self) -> String {
        "plain".to_string()
    }

    fn description(&self) -> String {
        "A tool that says nothing of permission".to_string()
    }

    fn definition(&self) -> ToolDefinition {
        picrust::llm::define_tool("plain", "Plain", json("{}"), Vec::new())
    }

    fn get_info(&self, _input: &serde_json::Value) -> picrust::tools::ToolInfo {
        picrust::tools::ToolInfo {
            name: "plain".to_string(),
            action_description: "Do nothing".to_string(),
            details: None,
        }
    }
}

#[test]
fn a_tool_asks_for_permission_unless_it_says_otherwise() {
    assert!(Plain.requires_permission());
    let mut registry = ToolRegistry::new();
    registry.register(Plain);
    assert!(registry.requires_permission("plain"));
    assert_eq!(registry.get_tool_info("plain", &json("{}")).unwrap().action_description, "Do nothing");
}

#[test]
fn a_tool_is_known_by_the_name_it_was_registered_under() {
    let mut registry = ToolRegistry::new();
    registry.register_as("shell".to_string(), false, BashTool::with_working_dir("/w"));
    registry.register_as("notes".to_string(), true, TodoTool::new(new_todo_list()));
    // Of two tools with one name the first is found.
    registry.register_as("shell".to_string(), true, ReadTool::with_base_dir("/w"));
    assert_eq!(registry.len(), 3);
    assert_eq!(registry.position("shell"), Some(0));
    assert_eq!(registry.position("notes"), Some(1));
    assert_eq!(registry.position("bash"), None);
    assert!(!registry.requires_permission("shell"));
    assert!(registry.requires_permission("notes"));
    assert!(registry.requires_permission("bash"));
    let info = registry.get_tool_info("shell", &json("{\"command\":\"ls\"}")).unwrap();
    assert_eq!(info.name, "bash");
    assert_eq!(info.action_description, "Execute command: ls");
    assert!(registry.get_tool_info("bash", &json("{}")).is_none());
    assert!(registry.get_tool_info("", &json("{}")).is_none());
}

#[test]
fn the_registry_knows_its_tools_by_name() {
    let mut registry = ToolRegistry::new();
    assert_eq!(registry.len(), 0);
    assert!(registry.get_definitions().is_empty());
    // A tool that is not known asks for permission.
    assert!(registry.requires_permission("bash"));
    registry.register(BashTool::with_working_dir("/w"));
    registry.register(TodoTool::new(new_todo_list()));
    registry.register(ReadTool::with_base_dir("/w"));
    assert_eq!(registry.len(), 3);
    assert_eq!(registry.position("todo"), Some(1));
    assert_eq!(registry.position("Read"), Some(2));
    assert_eq!(registry.position("read"), None);
    assert!(registry.requires_permission("bash"));
    assert!(!registry.requires_permission("todo"));
    assert!(registry.requires_permission("unknown"));
    let names: Vec<String> = registry.get_definitions().into_iter().map(|d| custom(d).name).collect();
    assert_eq!(names, vec!["bash", "todo", "Read"]);
    let info = registry.get_tool_info("bash", &json("{\"command\":\"ls\"}")).unwrap();
    assert_eq!(info.action_description, "Execute command: ls");
    assert!(registry.get_tool_info("nope", &json("{}")).is_none());
}
