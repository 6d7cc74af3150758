use picrust::llm::openai::{
    convert_usage, is_reasoning_model, map_finish_reason, OpenAiChoice, OpenAiContent,
    OpenAiContentPart, OpenAiFunctionCall, OpenAiImageUrl, OpenAiMessage, OpenAiResponse,
    OpenAiToolCall, OpenAiToolChoice, OpenAiUsage, ProviderError, Temperature,
};
use picrust::llm::types::{BuiltinTool, SystemBlock};
use picrust::llm::{
    define_tool, ContentBlock, Message, OpenAiProvider, Role, StopReason, SystemPrompt,
    ThinkingConfig, ToolChoice, ToolDefinition,
};

fn json(text: &str) -> serde_json::Value {
    serde_json::from_str(text).unwrap()
}

fn provider() -> OpenAiProvider {
    OpenAiProvider::new("sk-test").with_model("gpt-4o-mini").with_max_tokens(1000)
}

fn text_of(message: &OpenAiMessage) -> Option<String> {
    match &message.content {
        Some(OpenAiContent::Text(t)) => Some(t.clone()),
        Some(OpenAiContent::Parts(_)) => panic!("expected text"),
        None => None,
    }
}

#[test]
fn test_provider_name() {
    let provider = provider();
    assert_eq!(provider.provider_name(), "openai");
}

#[test]
fn test_model_name() {
    let provider = provider();
    assert_eq!(provider.model(), "gpt-4o-mini");
}

#[test]
fn test_create_variant() {
    let provider = provider();
    let variant = provider.create_variant("gpt-3.5-turbo", 500);
    assert_eq!(variant.model(), "gpt-3.5-turbo");
    assert_eq!(variant.max_tokens, 500);
    assert_eq!(variant.api_key, "sk-test");
    assert_eq!(provider.model(), "gpt-4o-mini");
}

#[test]
fn test_from_env() {
    // The settings as the environment gives them.
    let provider =
        OpenAiProvider::from_settings("sk-test123", "gpt-4o", None, "2000".parse::<u32>().ok());
    assert_eq!(provider.model(), "gpt-4o");
    assert_eq!(provider.max_tokens, 2000);
    assert_eq!(provider.api_key, "sk-test123");
    let defaulted =
        OpenAiProvider::from_settings("k", "m", Some("http://proxy/v1".to_string()), None);
    assert_eq!(defaulted.max_tokens, 4096);
    assert_eq!(defaulted.completions_url(), "http://proxy/v1/chat/completions");
}

#[test]
fn a_new_provider_has_the_defaults() {
    let p = OpenAiProvider::new("key");
    assert_eq!(p.model(), "");
    assert_eq!(p.max_tokens, 4096);
    assert_eq!(p.api_base, "https://api.openai.com/v1");
    assert_eq!(p.completions_url(), "https://api.openai.com/v1/chat/completions");
    assert_eq!(p.authorization_header(), "Bearer key");
}

#[test]
fn finish_codes_map_by_the_table() {
    assert_eq!(map_finish_reason("stop"), StopReason::EndTurn);
    assert_eq!(map_finish_reason("length"), StopReason::MaxTokens);
    assert_eq!(map_finish_reason("tool_calls"), StopReason::ToolUse);
    assert_eq!(map_finish_reason("content_filter"), StopReason::Refusal);
    assert_eq!(map_finish_reason("something_new"), StopReason::EndTurn);
    assert_eq!(map_finish_reason(""), StopReason::EndTurn);
    assert_eq!(map_finish_reason("STOP"), StopReason::EndTurn);
}

#[test]
fn reasoning_models_go_by_prefix() {
    assert!(is_reasoning_model("o1-mini"));
    assert!(is_reasoning_model("o3-mini"));
    assert!(is_reasoning_model("gpt-5"));
    assert!(is_reasoning_model("gpt-5.2-turbo"));
    assert!(!is_reasoning_model("o1"));
    assert!(!is_reasoning_model("gpt-4o"));
    assert!(!is_reasoning_model("my-o1-mini"));
    assert!(!is_reasoning_model(""));
}

#[test]
fn system_prompt_becomes_the_leading_system_message() {
    let p = provider();
    let messages = vec![Message::user("Hi"), Message::assistant("Hello")];
    let out = p.convert_messages(&messages, &Some(SystemPrompt::Text("Be brief.".to_string())));
    assert_eq!(out.len(), 3);
    assert_eq!(out[0].role, "system");
    assert_eq!(text_of(&out[0]), Some("Be brief.".to_string()));
    assert_eq!(out[1].role, "user");
    assert_eq!(text_of(&out[1]), Some("Hi".to_string()));
    assert_eq!(out[2].role, "assistant");
    assert_eq!(text_of(&out[2]), Some("Hello".to_string()));

    let blocks = SystemPrompt::Blocks(vec![
        SystemBlock { text: "One".to_string() },
        SystemBlock { text: "Two".to_string() },
    ]);
    let out = p.convert_messages(&Vec::new(), &Some(blocks));
    assert_eq!(out.len(), 1);
    assert_eq!(text_of(&out[0]), Some("One\nTwo".to_string()));
    assert!(p.convert_messages(&Vec::new(), &None).is_empty());
}

#[test]
fn tool_uses_attach_to_the_assistant_message() {
    let p = provider();
    let blocks = vec![
        ContentBlock::text("Checking the weather."),
        ContentBlock::text(""),
        ContentBlock::Thinking { text: "Paris first".to_string() },
        ContentBlock::tool_use(
            "call_1".to_string(),
            "get_weather".to_string(),
            json("{\"location\": \"Paris\"}"),
        ),
        ContentBlock::RedactedThinking,
        ContentBlock::tool_use("call_2".to_string(), "get_time".to_string(), json("{}")),
    ];
    let mut out = Vec::new();
    p.convert_blocks_to_messages(&blocks, Role::Assistant, &mut out);
    assert_eq!(out.len(), 1);
    assert_eq!(out[0].role, "assistant");
    assert_eq!(
        text_of(&out[0]),
        Some("Checking the weather.\n[Internal reasoning: Paris first]".to_string())
    );
    let calls = out[0].tool_calls.as_ref().unwrap();
    assert_eq!(calls.len(), 2);
    assert_eq!(calls[0].id, "call_1");
    assert_eq!(calls[0].tool_type, "function");
    assert_eq!(calls[0].function.name, "get_weather");
    assert_eq!(calls[0].function.arguments, "{\"location\":\"Paris\"}");
    assert_eq!(calls[1].function.arguments, "{}");
    assert_eq!(out[0].tool_call_id, None);
}

#[test]
fn tool_results_become_messages_of_role_tool() {
    let p = provider();
    let blocks = vec![
        ContentBlock::tool_result("call_1", Some("18C".to_string()), None),
        ContentBlock::tool_result("call_2", Some("not found".to_string()), Some(true)),
        ContentBlock::tool_result("call_3", None, Some(false)),
    ];
    let mut out = vec![OpenAiMessage::plain("user", "before".to_string())];
    p.convert_blocks_to_messages(&blocks, Role::User, &mut out);
    // No user message without text: only the three tool messages are added.
    assert_eq!(out.len(), 4);
    assert_eq!(text_of(&out[0]), Some("before".to_string()));
    for (i, (id, text)) in
        [("call_1", "18C"), ("call_2", "Error: not found"), ("call_3", "No output")].iter().enumerate()
    {
        assert_eq!(out[i + 1].role, "tool");
        assert_eq!(out[i + 1].tool_call_id, Some(id.to_string()));
        assert_eq!(text_of(&out[i + 1]), Some(text.to_string()));
        assert!(out[i + 1].tool_calls.is_none());
    }
}

#[test]
fn a_user_message_with_text_and_results_keeps_both() {
    let p = provider();
    let blocks = vec![
        ContentBlock::tool_result("call_1", Some("ok".to_string()), None),
        ContentBlock::text("And also this."),
        ContentBlock::image("AAAA".to_string(), "image/png".to_string()),
        ContentBlock::document("BBBB".to_string(), "application/pdf".to_string()),
    ];
    let messages = vec![Message::user_with_blocks(blocks)];
    let out = p.convert_messages(&messages, &None);
    assert_eq!(out.len(), 2);
    assert_eq!(out[0].role, "user");
    assert_eq!(text_of(&out[0]), Some("And also this.".to_string()));
    assert_eq!(out[1].role, "tool");
}

#[test]
fn an_empty_assistant_message_still_goes_out() {
    let p = provider();
    let mut out = Vec::new();
    p.convert_blocks_to_messages(&Vec::new(), Role::Assistant, &mut out);
    assert_eq!(out.len(), 1);
    assert_eq!(out[0].role, "assistant");
    assert!(out[0].content.is_none());
    assert!(out[0].tool_calls.is_none());
    let mut out = Vec::new();
    p.convert_blocks_to_messages(&Vec::new(), Role::User, &mut out);
    assert!(out.is_empty());
}

#[test]
fn builtin_tools_are_dropped_from_the_tool_list() {
    let p = provider();
    let weather = define_tool(
        "get_weather",
        "Get current weather for a location",
        json("{\"location\": {\"type\": \"string\", \"description\": \"City name\"}}"),
        vec!["location".to_string()],
    );
    let bash = ToolDefinition::Bash(BuiltinTool {
        name: "bash".to_string(),
        tool_type: "bash_20250124".to_string(),
    });
    let editor = ToolDefinition::TextEditor(BuiltinTool {
        name: "str_replace_editor".to_string(),
        tool_type: "text_editor_20250124".to_string(),
    });
    let tools = p.convert_tools(&vec![bash.clone(), weather, editor.clone()]).unwrap();
    assert_eq!(tools.len(), 1);
    assert_eq!(tools[0].tool_type, "function");
    assert_eq!(tools[0].function.name, "get_weather");
    assert_eq!(
        tools[0].function.description,
        Some("Get current weather for a location".to_string())
    );
    assert_eq!(
        tools[0].function.parameters,
        Some(json(
            "{\"type\":\"object\",\"properties\":{\"location\":{\"type\":\"string\",\"description\":\"City name\"}},\"required\":[\"location\"]}"
        ))
    );
    assert!(p.convert_tools(&vec![bash, editor]).is_none());
    assert!(p.convert_tools(&Vec::new()).is_none());
}

#[test]
fn a_schema_without_properties_and_required_has_no_parameters() {
    let p = provider();
    let mut tool = define_tool("ping", "Ping", json("{}"), Vec::new());
    if let ToolDefinition::Custom(custom) = &mut tool {
        custom.input_schema.properties = None;
        custom.input_schema.required = None;
    }
    let tools = p.convert_tools(&vec![tool]).unwrap();
    assert_eq!(tools[0].function.parameters, None);
}

fn choice_mode(choice: &OpenAiToolChoice) -> String {
    match choice {
        OpenAiToolChoice::Mode(m) => m.clone(),
        OpenAiToolChoice::Function { choice_type, function } => {
            format!("{}:{}", choice_type, function.name)
        }
    }
}

#[test]
fn tool_choices_convert() {
    let p = provider();
    assert_eq!(choice_mode(&p.convert_tool_choice(&None)), "auto");
    assert_eq!(choice_mode(&p.convert_tool_choice(&Some(ToolChoice::auto()))), "auto");
    assert_eq!(
        choice_mode(&p.convert_tool_choice(&Some(ToolChoice::Any { disable_parallel_tool_use: None }))),
        "required"
    );
    assert_eq!(choice_mode(&p.convert_tool_choice(&Some(ToolChoice::NoTools))), "none");
    assert_eq!(
        choice_mode(&p.convert_tool_choice(&Some(ToolChoice::Tool {
            name: "get_weather".to_string(),
            disable_parallel_tool_use: None
        }))),
        "function:get_weather"
    );
}

#[test]
fn requests_follow_the_models_class() {
    let messages = vec![Message::user("Hi")];
    let tools = vec![define_tool("t", "d", json("{}"), Vec::new())];
    let thinking = Some(ThinkingConfig::enabled(10000));

    let plain = provider().build_request(&messages, &None, &tools, &None, &thinking);
    assert_eq!(plain.model, "gpt-4o-mini");
    assert_eq!(plain.max_tokens, Some(1000));
    assert_eq!(plain.max_completion_tokens, None);
    assert_eq!(plain.temperature, Some(Temperature { thousandths: 1000 }));
    assert_eq!(plain.tools.as_ref().unwrap().len(), 1);
    assert_eq!(choice_mode(plain.tool_choice.as_ref().unwrap()), "auto");
    assert_eq!(plain.stream, None);
    assert_eq!(plain.stream_options, None);
    assert_eq!(plain.messages.len(), 1);

    let reasoning = provider().with_model("o3-mini").build_request(
        &messages,
        &None,
        &Vec::new(),
        &Some(ToolChoice::auto()),
        &None,
    );
    assert_eq!(reasoning.max_tokens, None);
    assert_eq!(reasoning.max_completion_tokens, Some(1000));
    assert_eq!(reasoning.temperature, None);
    // Without tools there is no tool choice.
    assert!(reasoning.tools.is_none());
    assert!(reasoning.tool_choice.is_none());

    let streamed = provider().build_stream_request(&messages, &None, &tools, &None, &None);
    assert_eq!(streamed.stream, Some(true));
    assert!(streamed.stream_options.unwrap().include_usage);
    assert_eq!(streamed.max_tokens, Some(1000));
}

fn reply(message: OpenAiMessage, finish: Option<&str>, usage: Option<OpenAiUsage>) -> OpenAiResponse {
    OpenAiResponse {
        id: "chatcmpl-1".to_string(),
        object: "chat.completion".to_string(),
        created: 1,
        model: "gpt-4o-mini-2024".to_string(),
        choices: vec![OpenAiChoice {
            index: 0,
            message,
            finish_reason: finish.map(|s| s.to_string()),
        }],
        usage,
    }
}

#[test]
fn a_reply_converts_to_canonical_content() {
    let p = provider();
    let message = OpenAiMessage {
        role: "assistant".to_string(),
        content: Some(OpenAiContent::Text("Let me check.".to_string())),
        tool_calls: Some(vec![
            OpenAiToolCall {
                id: "call_1".to_string(),
                tool_type: "function".to_string(),
                function: OpenAiFunctionCall {
                    name: "get_weather".to_string(),
                    arguments: "{\"location\":\"Paris\"}".to_string(),
                },
            },
            OpenAiToolCall {
                id: "call_2".to_string(),
                tool_type: "function".to_string(),
                function: OpenAiFunctionCall {
                    name: "broken".to_string(),
                    arguments: "{\"loc".to_string(),
                },
            },
        ]),
        tool_call_id: None,
    };
    let usage = OpenAiUsage { prompt_tokens: 11, completion_tokens: 7, total_tokens: 18 };
    let converted = p.convert_response(&reply(message, Some("tool_calls"), Some(usage))).unwrap();
    assert_eq!(converted.id, "chatcmpl-1");
    assert_eq!(converted.role, Role::Assistant);
    assert_eq!(converted.model, "gpt-4o-mini-2024");
    assert_eq!(converted.stop_reason, Some(StopReason::ToolUse));
    assert_eq!(converted.usage, picrust::llm::Usage::new(11, 7));
    assert_eq!(converted.text(), "Let me check.");
    assert_eq!(converted.content.len(), 3);
    match &converted.content[1] {
        ContentBlock::ToolUse { id, name, input } => {
            assert_eq!(id, "call_1");
            assert_eq!(name, "get_weather");
            assert_eq!(input, &json("{\"location\":\"Paris\"}"));
        }
        _ => panic!("expected a tool use"),
    }
    match &converted.content[2] {
        // Arguments that are no JSON become the empty object.
        ContentBlock::ToolUse { input, .. } => assert_eq!(input, &json("{}")),
        _ => panic!("expected a tool use"),
    }
}

#[test]
fn parts_and_empty_text_in_replies() {
    let p = provider();
    let parts = OpenAiMessage {
        role: "assistant".to_string(),
        content: Some(OpenAiContent::Parts(vec![
            OpenAiContentPart::Text { text: "A".to_string() },
            OpenAiContentPart::ImageUrl {
                image_url: OpenAiImageUrl { url: "http://x/y.png".to_string() },
            },
            OpenAiContentPart::Text { text: "".to_string() },
            OpenAiContentPart::Text { text: "B".to_string() },
        ])),
        tool_calls: None,
        tool_call_id: None,
    };
    let blocks = p.convert_openai_message_to_blocks(&parts);
    assert_eq!(blocks.len(), 2);
    let converted = p.convert_response(&reply(parts, None, None)).unwrap();
    assert_eq!(converted.text(), "AB");
    assert_eq!(converted.stop_reason, None);
    assert_eq!(converted.usage, convert_usage(&None));
    assert_eq!(converted.usage.input_tokens, 0);

    let empty = OpenAiMessage::plain("assistant", String::new());
    assert!(p.convert_openai_message_to_blocks(&empty).is_empty());
}

#[test]
fn a_reply_without_choices_is_an_error() {
    let p = provider();
    let mut response = reply(OpenAiMessage::plain("assistant", "x".to_string()), Some("stop"), None);
    response.choices.clear();
    let err = p.convert_response(&response).unwrap_err();
    assert!(matches!(err, ProviderError::NoChoices));
    assert_eq!(err.message(), "No choices in OpenAI response");
}

#[test]
fn messages_give_their_text() {
    assert_eq!(Message::user("Hello").text(), "Hello");
    let blocks = Message::assistant_with_blocks(vec![
        ContentBlock::text("Hello, "),
        ContentBlock::Thinking { text: "skip me".to_string() },
        ContentBlock::text("world"),
    ]);
    assert_eq!(blocks.text(), "Hello, world");
    assert_eq!(blocks.role, Role::Assistant);
    assert_eq!(Role::User.as_str(), "user");
    assert_eq!(Role::Assistant.as_str(), "assistant");
    let copy = blocks.clone();
    assert_eq!(copy.text(), "Hello, world");
}
