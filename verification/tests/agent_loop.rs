use picrust::agent::agent_loop::{tool_result_block, unsaved_messages, MAX_TOOL_ITERATIONS};
use picrust::agent::{
    classify_input, permission_request, InputAction, ResponseWalk, ToolOutcome, TurnEnd, TurnLoop,
    TurnStep, WalkStep,
};
use picrust::llm::{ContentBlock, Message, MessageContent, MessageResponse, Role, StopReason, Usage};
use picrust::tools::{ToolInfo, ToolResult};

fn json(text: &str) -> serde_json::Value {
    serde_json::from_str(text).unwrap()
}

fn response(content: Vec<ContentBlock>, stop_reason: Option<StopReason>) -> MessageResponse {
    MessageResponse {
        id: "msg_1".to_string(),
        role: Role::Assistant,
        content,
        model: "m".to_string(),
        stop_reason,
        usage: Usage::new(1, 2),
    }
}

fn tool_use(id: &str, name: &str) -> ContentBlock {
    ContentBlock::ToolUse { id: id.to_string(), name: name.to_string(), input: json("{}") }
}

fn text(t: &str) -> ContentBlock {
    ContentBlock::Text { text: t.to_string() }
}

fn result_parts(block: &ContentBlock) -> (String, Option<String>, Option<bool>) {
    match block {
        ContentBlock::ToolResult { tool_use_id, content, is_error } => {
            (tool_use_id.clone(), content.clone(), *is_error)
        }
        _ => panic!("expected a tool result"),
    }
}

fn blocks_of(message: &Message) -> &Vec<ContentBlock> {
    match &message.content {
        MessageContent::Blocks(blocks) => blocks,
        _ => panic!("expected blocks"),
    }
}

#[test]
fn every_tool_use_gets_exactly_one_result_in_order() {
    let reply = response(
        vec![
            text("Let me look."),
            tool_use("call_a", "bash"),
            ContentBlock::Thinking { text: "hmm".to_string() },
            ContentBlock::RedactedThinking,
            tool_use("call_b", "file_edit"),
            tool_use("call_c", "bash"),
            text("Done asking."),
        ],
        Some(StopReason::ToolUse),
    );
    let mut walk = ResponseWalk::new(&reply);
    let mut shown: Vec<String> = Vec::new();
    let mut asked: Vec<String> = Vec::new();
    loop {
        match walk.next() {
            WalkStep::ShowText(t) => shown.push(format!("text:{}", t)),
            WalkStep::ShowThinking(t) => shown.push(format!("thinking:{}", t)),
            WalkStep::CallTool { id, name, .. } => {
                asked.push(id.clone());
                let outcome = if name == "file_edit" {
                    ToolOutcome::Denied
                } else {
                    ToolOutcome::Completed(ToolResult::success(&format!("ran {}", id)))
                };
                assert!(walk.answer(&outcome));
            }
            WalkStep::Done => break,
        }
    }
    assert_eq!(shown, vec!["text:Let me look.", "thinking:hmm", "text:Done asking."]);
    assert_eq!(asked, vec!["call_a", "call_b", "call_c"]);

    let (goes_on, messages) = walk.finish().unwrap();
    assert!(goes_on);
    assert_eq!(messages.len(), 2);
    assert_eq!(messages[0].role, Role::Assistant);
    assert_eq!(blocks_of(&messages[0]).len(), 7);
    assert_eq!(messages[1].role, Role::User);
    let results = blocks_of(&messages[1]);
    assert_eq!(results.len(), 3);
    assert_eq!(
        result_parts(&results[0]),
        ("call_a".to_string(), Some("ran call_a".to_string()), None)
    );
    assert_eq!(
        result_parts(&results[1]),
        ("call_b".to_string(), Some("Permission denied by user".to_string()), Some(true))
    );
    assert_eq!(
        result_parts(&results[2]),
        ("call_c".to_string(), Some("ran call_c".to_string()), None)
    );
}

#[test]
fn a_pending_tool_call_is_asked_again_until_answered() {
    let reply = response(vec![tool_use("call_a", "bash")], Some(StopReason::ToolUse));
    let mut walk = ResponseWalk::new(&reply);
    for _ in 0..3 {
        match walk.next() {
            WalkStep::CallTool { id, .. } => assert_eq!(id, "call_a"),
            _ => panic!("expected the tool call"),
        }
        assert!(!walk.is_done());
    }
    let mut unfinished = ResponseWalk::new(&reply);
    unfinished.next();
    assert!(unfinished.finish().is_none());

    assert!(walk.answer(&ToolOutcome::Failed("boom".to_string())));
    // A second answer has no call to go to.
    assert!(!walk.answer(&ToolOutcome::Denied));
    assert!(walk.is_done());
    let (_, messages) = walk.finish().unwrap();
    let results = blocks_of(&messages[1]);
    assert_eq!(results.len(), 1);
    assert_eq!(
        result_parts(&results[0]),
        ("call_a".to_string(), Some("Tool execution failed: boom".to_string()), Some(true))
    );
}

#[test]
fn a_reply_without_tool_calls_adds_no_messages() {
    let reply = response(vec![text("All done.")], Some(StopReason::EndTurn));
    let mut walk = ResponseWalk::new(&reply);
    assert!(!walk.is_done());
    match walk.next() {
        WalkStep::ShowText(t) => assert_eq!(t, "All done."),
        _ => panic!("expected text"),
    }
    match walk.next() {
        WalkStep::Done => {}
        _ => panic!("expected the end"),
    }
    let (goes_on, messages) = walk.finish().unwrap();
    assert!(!goes_on);
    assert!(messages.is_empty());
}

#[test]
fn only_stop_reason_tool_use_continues() {
    for (reason, expected) in [
        (Some(StopReason::ToolUse), true),
        (Some(StopReason::EndTurn), false),
        (Some(StopReason::MaxTokens), false),
        (Some(StopReason::Refusal), false),
        (None, false),
    ] {
        let reply = response(Vec::new(), reason);
        let walk = ResponseWalk::new(&reply);
        let (goes_on, messages) = walk.finish().unwrap();
        assert_eq!(goes_on, expected);
        assert!(messages.is_empty());
    }
}

#[test]
fn result_blocks_for_each_outcome() {
    let ok = tool_result_block("t1", &ToolOutcome::Completed(ToolResult::success("fine")));
    assert_eq!(result_parts(&ok), ("t1".to_string(), Some("fine".to_string()), None));
    let failed_tool = tool_result_block("t2", &ToolOutcome::Completed(ToolResult::error("exit 1")));
    assert_eq!(result_parts(&failed_tool), ("t2".to_string(), Some("exit 1".to_string()), Some(true)));
    let image = tool_result_block("t3", &ToolOutcome::Completed(ToolResult::image(vec![1], "image/png")));
    assert_eq!(result_parts(&image), ("t3".to_string(), None, None));
    let denied = tool_result_block("t4", &ToolOutcome::Denied);
    assert_eq!(
        result_parts(&denied),
        ("t4".to_string(), Some("Permission denied by user".to_string()), Some(true))
    );
}

#[test]
fn the_iteration_cap_stops_a_model_that_never_stops() {
    for max in [0usize, 1, 3, MAX_TOOL_ITERATIONS] {
        let mut turn = TurnLoop::start(Vec::new(), "go", max);
        let mut calls = 0usize;
        let end;
        loop {
            match turn.next() {
                TurnStep::CallProvider => {
                    calls += 1;
                    assert!(calls <= max, "the provider was called more often than the cap allows");
                    // The stub always asks for tools.
                    let reply = response(vec![tool_use("c", "bash")], Some(StopReason::ToolUse));
                    let mut walk = ResponseWalk::new(&reply);
                    // The model is not called again before the reply is worked through.
                    assert_eq!(turn.next(), TurnStep::AwaitReply);
                    while let WalkStep::CallTool { .. } = walk.next() {
                        walk.answer(&ToolOutcome::Completed(ToolResult::success("ok")));
                    }
                    assert!(turn.absorb(walk).is_ok());
                }
                TurnStep::AwaitReply => panic!("no reply is waited for"),
                TurnStep::Stop(e) => {
                    end = e;
                    break;
                }
            }
        }
        assert_eq!(calls, max);
        assert_eq!(turn.iterations(), max);
        assert_eq!(end, TurnEnd::IterationCapReached);
        // Nothing is rolled back: the user message and two messages per round.
        assert_eq!(turn.messages().len(), 1 + 2 * max);
        // The loop stays stopped.
        assert_eq!(turn.next(), TurnStep::Stop(TurnEnd::IterationCapReached));
    }
    assert_eq!(MAX_TOOL_ITERATIONS, 50);
}

#[test]
fn a_turn_ends_when_the_model_stops_asking() {
    let history = vec![Message::user("earlier"), Message::assistant("reply")];
    let mut turn = TurnLoop::start(history, "What now?", 50);
    assert_eq!(turn.messages().len(), 3);
    assert_eq!(turn.messages()[2].text(), "What now?");
    assert_eq!(turn.messages()[2].role, Role::User);
    // Without a call there is no reply to take.
    assert!(turn.absorb(ResponseWalk::new(&response(Vec::new(), None))).is_err());
    assert_eq!(turn.next(), TurnStep::CallProvider);

    let asking = response(vec![text("a"), tool_use("c1", "bash")], Some(StopReason::ToolUse));
    // A walk that is not through is refused, and the loop keeps waiting.
    let mut unfinished = ResponseWalk::new(&asking);
    unfinished.next();
    unfinished.next();
    let mut walk = turn.absorb(unfinished).unwrap_err();
    assert_eq!(turn.next(), TurnStep::AwaitReply);
    assert_eq!(turn.messages().len(), 3);

    // The walk comes back as it was, and is taken once it is through.
    walk.answer(&ToolOutcome::Completed(ToolResult::success("b")));
    assert!(turn.absorb(walk).is_ok());
    assert_eq!(turn.messages().len(), 5);

    assert_eq!(turn.next(), TurnStep::CallProvider);
    let done = response(vec![text("All done.")], Some(StopReason::EndTurn));
    let mut walk = ResponseWalk::new(&done);
    walk.next();
    assert!(turn.absorb(walk).is_ok());
    assert_eq!(turn.next(), TurnStep::Stop(TurnEnd::Completed));
    assert_eq!(turn.iterations(), 2);
    let messages = turn.into_messages();
    assert_eq!(messages.len(), 5);
    assert_eq!(messages[3].text(), "a");
    assert_eq!(messages[3].role, Role::Assistant);
    assert_eq!(result_parts(&blocks_of(&messages[4])[0]).0, "c1");
}

#[test]
fn only_new_messages_are_saved() {
    let messages = vec![Message::user("1"), Message::assistant("2"), Message::user("3")];
    let texts = |v: Vec<Message>| v.iter().map(|m| m.text()).collect::<Vec<String>>();
    assert_eq!(texts(unsaved_messages(&messages, 0)), vec!["1", "2", "3"]);
    assert_eq!(texts(unsaved_messages(&messages, 2)), vec!["3"]);
    assert!(unsaved_messages(&messages, 3).is_empty());
    assert!(unsaved_messages(&messages, 7).is_empty());
}

#[test]
fn input_lines_are_classified() {
    assert_eq!(classify_input("exit"), InputAction::Quit);
    assert_eq!(classify_input("QUIT"), InputAction::Quit);
    assert_eq!(classify_input("Exit"), InputAction::Quit);
    assert_eq!(classify_input(""), InputAction::Skip);
    assert_eq!(classify_input("  \t "), InputAction::Skip);
    assert_eq!(classify_input("exit now"), InputAction::Process);
    assert_eq!(classify_input(" exit"), InputAction::Process);
    assert_eq!(classify_input("fix the bug"), InputAction::Process);
}

#[test]
fn the_request_shows_what_the_tool_says() {
    let info = ToolInfo {
        name: "bash".to_string(),
        action_description: "Execute command: ls".to_string(),
        details: Some("Working directory: /tmp".to_string()),
    };
    let request = permission_request("bash", Some(info));
    assert_eq!(request.tool_name, "bash");
    assert_eq!(request.action_description, "Execute command: ls");
    assert_eq!(request.details, Some("Working directory: /tmp".to_string()));
    let request = permission_request("mystery", None);
    assert_eq!(request.tool_name, "mystery");
    assert_eq!(request.action_description, "Execute tool: mystery");
    assert_eq!(request.details, None);
}

#[test]
fn hidden_context_goes_out_first() {
    let conversation = vec![Message::user("1"), Message::assistant("2")];
    let texts = |v: Vec<Message>| v.iter().map(|m| m.text()).collect::<Vec<String>>();
    assert_eq!(
        texts(picrust::agent::agent_loop::outbound_messages(&conversation, Some(Message::user("hidden")))),
        vec!["hidden", "1", "2"]
    );
    assert_eq!(
        texts(picrust::agent::agent_loop::outbound_messages(&conversation, None)),
        vec!["1", "2"]
    );
    assert_eq!(conversation.len(), 2);
}
