use picrust::llm::openai::ProviderError;
use picrust::llm::openai_wire::{encode_request, format_temperature, parse_response, request_body};
use picrust::llm::openai::Temperature;
use picrust::llm::{define_tool, ContentBlock, Message, OpenAiProvider, StopReason, ToolChoice};

fn json(text: &str) -> serde_json::Value {
    serde_json::from_str(text).unwrap()
}

fn provider() -> OpenAiProvider {
    OpenAiProvider::new("sk-test").with_model("gpt-4o-mini").with_max_tokens(256)
}

#[test]
fn a_request_is_written_in_the_vendors_shape() {
    let p = provider();
    let messages = vec![
        Message::user("What's the weather in Paris?"),
        Message::assistant_with_blocks(vec![ContentBlock::tool_use(
            "call_1".to_string(),
            "get_weather".to_string(),
            json("{\"location\":\"Paris\"}"),
        )]),
        Message::user_with_blocks(vec![ContentBlock::tool_result(
            "call_1",
            Some("18C".to_string()),
            None,
        )]),
    ];
    let tools = vec![define_tool(
        "get_weather",
        "Get current weather for a location",
        json("{\"location\":{\"type\":\"string\"}}"),
        vec!["location".to_string()],
    )];
    let request = p.build_stream_request(
        &messages,
        &Some(picrust::llm::SystemPrompt::Text("Be brief.".to_string())),
        &tools,
        &Some(ToolChoice::Tool { name: "get_weather".to_string(), disable_parallel_tool_use: None }),
        &None,
    );
    let expected = json(
        "{
          \"model\": \"gpt-4o-mini\",
          \"messages\": [
            {\"role\": \"system\", \"content\": \"Be brief.\"},
            {\"role\": \"user\", \"content\": \"What's the weather in Paris?\"},
            {\"role\": \"assistant\", \"tool_calls\": [
              {\"id\": \"call_1\", \"type\": \"function\",
               \"function\": {\"name\": \"get_weather\", \"arguments\": \"{\\\"location\\\":\\\"Paris\\\"}\"}}
            ]},
            {\"role\": \"tool\", \"content\": \"18C\", \"tool_call_id\": \"call_1\"}
          ],
          \"max_tokens\": 256,
          \"temperature\": 1.0,
          \"tools\": [
            {\"type\": \"function\", \"function\": {
              \"name\": \"get_weather\",
              \"description\": \"Get current weather for a location\",
              \"parameters\": {\"type\": \"object\",
                               \"properties\": {\"location\": {\"type\": \"string\"}},
                               \"required\": [\"location\"]}
            }}
          ],
          \"tool_choice\": {\"type\": \"function\", \"function\": {\"name\": \"get_weather\"}},
          \"stream\": true,
          \"stream_options\": {\"include_usage\": true}
        }",
    );
    assert_eq!(encode_request(&request), expected);
    assert_eq!(json(&request_body(&request)), expected);
}

#[test]
fn members_without_a_value_are_left_out() {
    let p = provider().with_model("o1-mini");
    let request = p.build_request(&vec![Message::user("Hi")], &None, &Vec::new(), &None, &None);
    assert_eq!(
        request_body(&request),
        "{\"max_completion_tokens\":256,\"messages\":[{\"content\":\"Hi\",\"role\":\"user\"}],\"model\":\"o1-mini\"}"
    );
}

#[test]
fn temperatures_are_written_with_three_places() {
    assert_eq!(format_temperature(Temperature { thousandths: 1000 }), "1.000");
    assert_eq!(format_temperature(Temperature { thousandths: 700 }), "0.700");
    assert_eq!(format_temperature(Temperature { thousandths: 5 }), "0.005");
    assert_eq!(format_temperature(Temperature { thousandths: 12345 }), "12.345");
    assert_eq!(format_temperature(Temperature { thousandths: 0 }), "0.000");
}

#[test]
fn a_reply_is_read_from_its_text() {
    let body = "{\"id\":\"chatcmpl-1\",\"object\":\"chat.completion\",\"created\":1700000000,\"model\":\"gpt-4o-mini\",\"choices\":[{\"index\":0,\"message\":{\"role\":\"assistant\",\"content\":\"test passed\",\"refusal\":null},\"logprobs\":null,\"finish_reason\":\"stop\"}],\"usage\":{\"prompt_tokens\":9,\"completion_tokens\":2,\"total_tokens\":11},\"system_fingerprint\":\"fp\"}";
    let response = parse_response(body).unwrap();
    assert_eq!(response.id, "chatcmpl-1");
    assert_eq!(response.object, "chat.completion");
    assert_eq!(response.created, 1700000000);
    assert_eq!(response.choices.len(), 1);
    assert_eq!(response.choices[0].finish_reason, Some("stop".to_string()));
    assert_eq!(response.usage.unwrap().total_tokens, 11);

    let reply = provider().receive(200, "200 OK", body).unwrap();
    assert_eq!(reply.text(), "test passed");
    assert_eq!(reply.stop_reason, Some(StopReason::EndTurn));
    assert_eq!(reply.usage.input_tokens, 9);
    assert_eq!(reply.usage.output_tokens, 2);
}

#[test]
fn a_reply_with_tool_calls_and_parts_is_read() {
    let body = "{\"id\":\"r\",\"object\":\"chat.completion\",\"created\":1,\"model\":\"m\",\"choices\":[{\"index\":0,\"message\":{\"role\":\"assistant\",\"content\":[{\"type\":\"text\",\"text\":\"A\"},{\"type\":\"image_url\",\"image_url\":{\"url\":\"http://x\"}}],\"tool_calls\":[{\"id\":\"call_1\",\"type\":\"function\",\"function\":{\"name\":\"get_weather\",\"arguments\":\"{\\\"location\\\":\\\"Paris\\\"}\"}}]},\"finish_reason\":\"tool_calls\"}]}";
    let reply = provider().receive(200, "200 OK", body).unwrap();
    assert_eq!(reply.stop_reason, Some(StopReason::ToolUse));
    assert_eq!(reply.content.len(), 2);
    assert_eq!(reply.text(), "A");
    match &reply.content[1] {
        ContentBlock::ToolUse { id, name, input } => {
            assert_eq!(id, "call_1");
            assert_eq!(name, "get_weather");
            assert_eq!(input, &json("{\"location\":\"Paris\"}"));
        }
        _ => panic!("expected a tool use"),
    }
}

#[test]
fn test_error_handling_invalid_key() {
    let body = "{\"error\":{\"message\":\"Incorrect API key provided: invalid-key.\",\"type\":\"invalid_request_error\"}}";
    let result = OpenAiProvider::new("invalid-key").with_model("gpt-4o-mini").receive(
        401,
        "401 Unauthorized",
        body,
    );
    assert!(result.is_err());
    let error_msg = result.unwrap_err().message();
    assert!(error_msg.contains("401") || error_msg.contains("Incorrect API key"));
    assert_eq!(error_msg, format!("OpenAI API error (401 Unauthorized): {}", body));
}

#[test]
fn each_error_has_its_cause() {
    let p = provider();
    assert!(matches!(p.receive(500, "500", "oops").unwrap_err(), ProviderError::Api { .. }));
    assert!(matches!(p.receive(199, "199", "{}").unwrap_err(), ProviderError::Api { .. }));
    assert!(matches!(p.receive(300, "300", "{}").unwrap_err(), ProviderError::Api { .. }));
    let malformed = p.receive(200, "200 OK", "<html>").unwrap_err();
    assert!(matches!(malformed, ProviderError::Malformed));
    assert_eq!(malformed.message(), "Failed to parse OpenAI API response");
    assert!(matches!(
        p.receive(299, "299", "{\"id\":\"r\"}").unwrap_err(),
        ProviderError::Malformed
    ));
    let none = p
        .receive(
            200,
            "200 OK",
            "{\"id\":\"r\",\"object\":\"o\",\"created\":1,\"model\":\"m\",\"choices\":[]}",
        )
        .unwrap_err();
    assert!(matches!(none, ProviderError::NoChoices));
    assert_eq!(none.message(), "No choices in OpenAI response");
}

#[test]
fn replies_must_have_the_vendors_shape() {
    let ok = "{\"id\":\"r\",\"object\":\"o\",\"created\":1,\"model\":\"m\",\"choices\":[{\"index\":0,\"message\":{\"role\":\"assistant\"}}]}";
    let parsed = parse_response(ok).unwrap();
    assert!(parsed.choices[0].message.content.is_none());
    assert!(parsed.choices[0].message.tool_calls.is_none());
    assert_eq!(parsed.choices[0].finish_reason, None);
    // No role; content of the wrong kind; a part of an unknown type; a tool call without a name.
    for bad in [
        "{\"id\":\"r\",\"object\":\"o\",\"created\":1,\"model\":\"m\",\"choices\":[{\"index\":0,\"message\":{}}]}",
        "{\"id\":\"r\",\"object\":\"o\",\"created\":1,\"model\":\"m\",\"choices\":[{\"index\":0,\"message\":{\"role\":\"assistant\",\"content\":5}}]}",
        "{\"id\":\"r\",\"object\":\"o\",\"created\":1,\"model\":\"m\",\"choices\":[{\"index\":0,\"message\":{\"role\":\"assistant\",\"content\":[{\"type\":\"audio\"}]}}]}",
        "{\"id\":\"r\",\"object\":\"o\",\"created\":1,\"model\":\"m\",\"choices\":[{\"index\":0,\"message\":{\"role\":\"assistant\",\"tool_calls\":[{\"id\":\"c\",\"type\":\"function\",\"function\":{\"arguments\":\"{}\"}}]}}]}",
        "{\"id\":\"r\",\"object\":\"o\",\"created\":-1,\"model\":\"m\",\"choices\":[]}",
        "{\"id\":\"r\",\"object\":\"o\",\"created\":1,\"model\":\"m\",\"choices\":[{\"index\":4294967296,\"message\":{\"role\":\"assistant\"}}]}",
    ] {
        assert!(parse_response(bad).is_none(), "accepted: {}", bad);
    }
}
