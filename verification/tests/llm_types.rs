use nomi::llm::types::{ContentBlock, LlmMessage, LlmRequest, LlmRole, StopReason};

#[test]
fn stop_reason_variants_are_distinguishable() {
    assert_ne!(StopReason::EndTurn, StopReason::ToolUse);
    assert_eq!(StopReason::Other("weird".to_string()), StopReason::Other("weird".to_string()));
}

#[test]
fn llm_request_holds_the_fields_it_was_constructed_with() {
    let request = LlmRequest {
        system: Some("be helpful".to_string()),
        messages: vec![LlmMessage { role: LlmRole::User, content: vec![ContentBlock::Text { text: "hi".to_string() }] }],
        tools: vec![],
        max_tokens: 1024,
        enable_reasoning: false,
    };

    assert_eq!(request.system, Some("be helpful".to_string()));
    assert_eq!(request.messages.len(), 1);
    assert_eq!(request.messages[0].role, LlmRole::User);
    assert_eq!(request.messages[0].content[0], ContentBlock::Text { text: "hi".to_string() });
    assert_eq!(request.max_tokens, 1024);
}

#[test]
fn content_block_variants_carry_their_fields() {
    let tool_use = ContentBlock::ToolUse {
        id: "toolu_1".to_string(),
        name: "get_weather".to_string(),
        input: r#"{"city": "Paris"}"#.to_string(),
        thought_signature: None,
    };
    match tool_use {
        ContentBlock::ToolUse { id, name, input, .. } => {
            assert_eq!(id, "toolu_1");
            assert_eq!(name, "get_weather");
            let got: serde_json::Value = serde_json::from_str(&input).unwrap();
            let expected: serde_json::Value = serde_json::from_str(r#"{"city":"Paris"}"#).unwrap();
            assert_eq!(got, expected);
        }
        _ => panic!("expected ToolUse variant"),
    }
}
