use nomi::llm::fake::{fake_complete_stream, SIMULATE_FAILURE_SENTINEL};
use nomi::llm::stream::{collect_stream, response_to_stream, StreamCollector};
use nomi::llm::types::{
    ContentBlock, LlmError, LlmMessage, LlmRequest, LlmResponse, LlmRole, PartialBlock, StopReason, StreamEvent,
};

fn tool(id: &str, name: &str) -> PartialBlock {
    PartialBlock::ToolUse { id: id.to_string(), name: name.to_string(), thought_signature: None }
}

fn json(text: &str) -> serde_json::Value {
    serde_json::from_str(text).unwrap()
}

#[test]
fn collect_stream_assembles_a_single_text_block() {
    let events = vec![
        Ok(StreamEvent::ContentBlockStart { index: 0, block: PartialBlock::Text }),
        Ok(StreamEvent::TextDelta { index: 0, text: "Hel".to_string() }),
        Ok(StreamEvent::TextDelta { index: 0, text: "lo".to_string() }),
        Ok(StreamEvent::ContentBlockDone { index: 0 }),
        Ok(StreamEvent::Done { stop_reason: StopReason::EndTurn, input_tokens: 3, output_tokens: 2 }),
    ];
    let response = collect_stream(&events).unwrap();
    assert_eq!(response.content, vec![ContentBlock::Text { text: "Hello".to_string() }]);
    assert_eq!(response.stop_reason, StopReason::EndTurn);
    assert_eq!(response.input_tokens, 3);
    assert_eq!(response.output_tokens, 2);
}

#[test]
fn collect_stream_assembles_interleaved_text_and_tool_use_blocks_in_index_order() {
    let events = vec![
        Ok(StreamEvent::ContentBlockStart { index: 0, block: PartialBlock::Text }),
        Ok(StreamEvent::TextDelta { index: 0, text: "Let me check. ".to_string() }),
        Ok(StreamEvent::ContentBlockDone { index: 0 }),
        Ok(StreamEvent::ContentBlockStart { index: 1, block: tool("toolu_1", "get_weather") }),
        Ok(StreamEvent::ToolInputDelta { index: 1, partial_json: "{\"city\":".to_string() }),
        Ok(StreamEvent::ToolInputDelta { index: 1, partial_json: "\"Paris\"}".to_string() }),
        Ok(StreamEvent::ContentBlockDone { index: 1 }),
        Ok(StreamEvent::Done { stop_reason: StopReason::ToolUse, input_tokens: 10, output_tokens: 4 }),
    ];
    let response = collect_stream(&events).unwrap();
    assert_eq!(response.content.len(), 2);
    assert_eq!(response.content[0], ContentBlock::Text { text: "Let me check. ".to_string() });
    match &response.content[1] {
        ContentBlock::ToolUse { id, name, input, thought_signature } => {
            assert_eq!(id, "toolu_1");
            assert_eq!(name, "get_weather");
            assert_eq!(json(input), json(r#"{"city": "Paris"}"#));
            assert_eq!(*thought_signature, None);
        }
        other => panic!("unexpected block {other:?}"),
    }
    assert_eq!(response.stop_reason, StopReason::ToolUse);
}

#[test]
fn collect_stream_rejects_invalid_tool_input_json() {
    let events = vec![
        Ok(StreamEvent::ContentBlockStart { index: 0, block: tool("t1", "x") }),
        Ok(StreamEvent::ToolInputDelta { index: 0, partial_json: "not json".to_string() }),
        Ok(StreamEvent::ContentBlockDone { index: 0 }),
        Ok(StreamEvent::Done { stop_reason: StopReason::ToolUse, input_tokens: 1, output_tokens: 1 }),
    ];
    match collect_stream(&events) {
        Err(LlmError::ParseError(m)) => assert!(m.starts_with("invalid tool input json: ")),
        other => panic!("unexpected {other:?}"),
    }
}

#[test]
fn a_tool_call_without_input_gets_an_empty_object() {
    let events = vec![
        Ok(StreamEvent::ContentBlockStart { index: 0, block: tool("t1", "now") }),
        Ok(StreamEvent::ContentBlockDone { index: 0 }),
        Ok(StreamEvent::Done { stop_reason: StopReason::ToolUse, input_tokens: 1, output_tokens: 1 }),
    ];
    match &collect_stream(&events).unwrap().content[0] {
        ContentBlock::ToolUse { input, .. } => assert_eq!(input, "{}"),
        other => panic!("unexpected block {other:?}"),
    }
}

#[test]
fn collect_stream_errors_if_the_stream_ends_without_a_done_event() {
    let events = vec![
        Ok(StreamEvent::ContentBlockStart { index: 0, block: PartialBlock::Text }),
        Ok(StreamEvent::TextDelta { index: 0, text: "partial".to_string() }),
    ];
    assert!(matches!(collect_stream(&events), Err(LlmError::ParseError(_))));
}

#[test]
fn collect_stream_propagates_a_mid_stream_error() {
    let events = vec![
        Ok(StreamEvent::ContentBlockStart { index: 0, block: PartialBlock::Text }),
        Err(LlmError::ProviderError("dropped connection".to_string())),
    ];
    assert_eq!(collect_stream(&events), Err(LlmError::ProviderError("dropped connection".to_string())));
}

#[test]
fn thinking_is_collected_apart_from_text_with_its_signature() {
    let events = vec![
        Ok(StreamEvent::ContentBlockStart { index: 0, block: PartialBlock::Thinking }),
        Ok(StreamEvent::ThinkingDelta { index: 0, text: "Let me ".to_string() }),
        Ok(StreamEvent::ThinkingDelta { index: 0, text: "think.".to_string() }),
        Ok(StreamEvent::ThinkingSignature { index: 0, signature: "sig".to_string() }),
        Ok(StreamEvent::ContentBlockDone { index: 0 }),
        Ok(StreamEvent::ContentBlockStart { index: 1, block: PartialBlock::Text }),
        Ok(StreamEvent::TextDelta { index: 1, text: "Answer".to_string() }),
        Ok(StreamEvent::ContentBlockDone { index: 1 }),
        Ok(StreamEvent::Done { stop_reason: StopReason::EndTurn, input_tokens: 1, output_tokens: 2 }),
    ];
    let r = collect_stream(&events).unwrap();
    assert_eq!(
        r.content,
        vec![
            ContentBlock::Thinking { text: "Let me think.".to_string(), signature: Some("sig".to_string()) },
            ContentBlock::Text { text: "Answer".to_string() },
        ]
    );
}

#[test]
fn a_reply_turned_into_a_stream_collects_back_to_itself() {
    let response = LlmResponse {
        content: vec![
            ContentBlock::Text { text: "hi".to_string() },
            ContentBlock::ToolUse {
                id: "t".to_string(),
                name: "n".to_string(),
                input: "{\"a\":1}".to_string(),
                thought_signature: Some("s".to_string()),
            },
        ],
        stop_reason: StopReason::ToolUse,
        input_tokens: 4,
        output_tokens: 5,
    };
    let events = response_to_stream(&response);
    assert!(events.iter().all(|e| e.is_ok()));
    assert_eq!(collect_stream(&events), Ok(response));
}

#[test]
fn the_collector_finishes_on_done() {
    let mut c = StreamCollector::new();
    assert!(c.step(StreamEvent::ContentBlockStart { index: 0, block: PartialBlock::Text }).is_none());
    assert!(c.step(StreamEvent::TextDelta { index: 0, text: "x".to_string() }).is_none());
    assert!(c.step(StreamEvent::ContentBlockDone { index: 0 }).is_none());
    let done = c.step(StreamEvent::Done { stop_reason: StopReason::MaxTokens, input_tokens: 0, output_tokens: 9 });
    let r = done.unwrap().unwrap();
    assert_eq!(r.content, vec![ContentBlock::Text { text: "x".to_string() }]);
    assert_eq!(r.stop_reason, StopReason::MaxTokens);
}

fn request(text: &str, enable_reasoning: bool) -> LlmRequest {
    LlmRequest {
        system: None,
        messages: vec![LlmMessage { role: LlmRole::User, content: vec![ContentBlock::Text { text: text.to_string() }] }],
        tools: vec![],
        max_tokens: 10,
        enable_reasoning,
    }
}

#[test]
fn the_fake_provider_replies_and_fails_on_request() {
    let events = fake_complete_stream(&request("hello", false)).unwrap();
    let r = collect_stream(&events).unwrap();
    assert_eq!(r.stop_reason, StopReason::EndTurn);
    assert!(matches!(r.content[0], ContentBlock::Text { .. }));
    let failing = request(&format!("please {SIMULATE_FAILURE_SENTINEL} now"), false);
    assert!(fake_complete_stream(&failing).is_err());
}

#[test]
fn the_fake_provider_thinks_when_asked() {
    let events = fake_complete_stream(&request("hello", true)).unwrap();
    let r = collect_stream(&events).unwrap();
    assert!(matches!(r.content[0], ContentBlock::Thinking { .. }));
}

#[test]
fn a_block_left_open_is_dropped_from_the_reply() {
    let events = vec![
        Ok(StreamEvent::ContentBlockStart { index: 0, block: PartialBlock::Text }),
        Ok(StreamEvent::TextDelta { index: 0, text: "unfinished".to_string() }),
        Ok(StreamEvent::Done { stop_reason: StopReason::EndTurn, input_tokens: 0, output_tokens: 0 }),
    ];
    assert_eq!(collect_stream(&events).unwrap().content, vec![]);
}
