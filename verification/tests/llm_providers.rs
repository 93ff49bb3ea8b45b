use nomi::llm::anthropic::{self, AnthropicBlockInfo, AnthropicData, AnthropicDecoder, AnthropicDelta, AnthropicFrame};
use nomi::llm::config::{base_url_for, default_base_url, fake_models, models_from_listing, validation_request, ModelConfig, ModelEntry, ProviderKind};
use nomi::llm::gemini::{self, GeminiCall, GeminiCandidate, GeminiChunk, GeminiDecoder, GeminiPart, GeminiPartDelta, GeminiUsage};
use nomi::llm::openai::{self, OpenAiChoice, OpenAiChunk, OpenAiDecoder, OpenAiFrame, OpenAiMessage, OpenAiToolCallDelta, OpenAiUsage};
use nomi::llm::sse::{is_success_status, status_error, StepEnd};
use nomi::llm::body_json::{anthropic_body_json, gemini_body_json, openai_body_json, JsonValue};
use nomi::llm::stream::collect_stream;
use nomi::llm::types::{ContentBlock, LlmError, LlmMessage, LlmRequest, LlmRole, StopReason, StreamEvent, ToolDefinition};

fn data() -> AnthropicData {
    AnthropicData { input_tokens: None, index: None, content_block: None, delta: None, output_tokens: None, rendered: "{}".to_string() }
}

fn frame(event: &str, d: AnthropicData) -> AnthropicFrame {
    AnthropicFrame { event: event.to_string(), data: Ok(d) }
}

fn delta(kind: &str) -> AnthropicDelta {
    AnthropicDelta { kind: Some(kind.to_string()), text: None, partial_json: None, thinking: None, signature: None, stop_reason: None }
}

#[test]
fn an_anthropic_text_reply_decodes_into_one_text_block() {
    let mut dec = AnthropicDecoder::new();
    let mut events: Vec<Result<StreamEvent, LlmError>> = Vec::new();
    let frames = vec![
        frame("message_start", AnthropicData { input_tokens: Some(12), ..data() }),
        frame(
            "content_block_start",
            AnthropicData {
                index: Some(0),
                content_block: Some(AnthropicBlockInfo { kind: Some("text".to_string()), id: None, name: None }),
                ..data()
            },
        ),
        frame("content_block_delta", AnthropicData { index: Some(0), delta: Some(AnthropicDelta { text: Some("Hi".to_string()), ..delta("text_delta") }), ..data() }),
        frame("ping", data()),
        frame("content_block_delta", AnthropicData { index: Some(0), delta: Some(AnthropicDelta { text: Some(" there".to_string()), ..delta("text_delta") }), ..data() }),
        frame("content_block_stop", AnthropicData { index: Some(0), ..data() }),
        frame(
            "message_delta",
            AnthropicData { delta: Some(AnthropicDelta { stop_reason: Some("end_turn".to_string()), ..delta("message_delta") }), output_tokens: Some(5), ..data() },
        ),
    ];
    let mut finished = false;
    for f in frames {
        let out = dec.step(f);
        events.extend(out.events.into_iter().map(Ok));
        if let StepEnd::Finished = out.end {
            finished = true;
        }
    }
    assert!(finished);
    let r = collect_stream(&events).unwrap();
    assert_eq!(r.content, vec![ContentBlock::Text { text: "Hi there".to_string() }]);
    assert_eq!(r.stop_reason, StopReason::EndTurn);
    assert_eq!(r.input_tokens, 12);
    assert_eq!(r.output_tokens, 5);
}

#[test]
fn anthropic_error_frames_and_unknown_blocks_fail_the_stream() {
    let mut dec = AnthropicDecoder::new();
    let out = dec.step(frame("error", AnthropicData { rendered: "{\"type\":\"overloaded\"}".to_string(), ..data() }));
    match out.end {
        StepEnd::Failed(LlmError::ProviderError(m)) => assert_eq!(m, "anthropic stream error: {\"type\":\"overloaded\"}"),
        other => panic!("unexpected {other:?}"),
    }
    let out = dec.step(frame(
        "content_block_start",
        AnthropicData { content_block: Some(AnthropicBlockInfo { kind: Some("image".to_string()), id: None, name: None }), ..data() },
    ));
    match out.end {
        StepEnd::Failed(LlmError::ParseError(m)) => assert_eq!(m, "unknown content_block type: Some(\"image\")"),
        other => panic!("unexpected {other:?}"),
    }
    let out = dec.step(AnthropicFrame { event: "content_block_stop".to_string(), data: Err("EOF".to_string()) });
    assert!(matches!(out.end, StepEnd::Failed(LlmError::ParseError(_))));
}

fn user(text: &str) -> LlmMessage {
    LlmMessage { role: LlmRole::User, content: vec![ContentBlock::Text { text: text.to_string() }] }
}

fn req(enable_reasoning: bool, tools: Vec<ToolDefinition>) -> LlmRequest {
    LlmRequest { system: Some("sys".to_string()), messages: vec![user("hi")], tools, max_tokens: 100, enable_reasoning }
}

#[test]
fn anthropic_bodies_raise_the_budget_for_reasoning() {
    let b = anthropic::build_body("sonnet", &req(true, vec![]), true);
    assert_eq!(b.max_tokens, 3072);
    assert_eq!(b.thinking_budget, Some(2048));
    assert!(b.tools.is_none());
    assert_eq!(b.system.as_deref(), Some("sys"));
    assert_eq!(b.messages[0].role, "user");
    let b = anthropic::build_body("sonnet", &req(false, vec![]), false);
    assert_eq!(b.max_tokens, 100);
    assert_eq!(b.thinking_budget, None);
    assert!(!b.stream);
}

fn chunk(choice: OpenAiChoice) -> OpenAiFrame {
    OpenAiFrame { data: "{}".to_string(), chunk: Ok(OpenAiChunk { usage: None, choice: Some(choice) }) }
}

fn choice() -> OpenAiChoice {
    OpenAiChoice { content: None, tool_calls: None, finish_reason: None }
}

#[test]
fn an_openai_tool_call_reassembles_fragmented_arguments_by_index() {
    let mut dec = OpenAiDecoder::new();
    let frames = vec![
        chunk(OpenAiChoice {
            tool_calls: Some(vec![OpenAiToolCallDelta {
                index: Some(0),
                id: Some("call_1".to_string()),
                name: Some("get_weather".to_string()),
                arguments: Some("{\"ci".to_string()),
            }]),
            ..choice()
        }),
        chunk(OpenAiChoice {
            tool_calls: Some(vec![OpenAiToolCallDelta { index: Some(0), id: None, name: None, arguments: Some("ty\":\"Paris\"}".to_string()) }]),
            ..choice()
        }),
        chunk(OpenAiChoice { finish_reason: Some("tool_calls".to_string()), ..choice() }),
        OpenAiFrame {
            data: "{}".to_string(),
            chunk: Ok(OpenAiChunk { usage: Some(OpenAiUsage { prompt_tokens: Some(7), completion_tokens: Some(3) }), choice: None }),
        },
        OpenAiFrame { data: "[DONE]".to_string(), chunk: Err("not json".to_string()) },
    ];
    let mut events: Vec<Result<StreamEvent, LlmError>> = Vec::new();
    for f in frames {
        assert!(dec.has_room(&f));
        let out = dec.step(f);
        events.extend(out.events.into_iter().map(Ok));
    }
    let r = collect_stream(&events).unwrap();
    assert_eq!(r.stop_reason, StopReason::ToolUse);
    assert_eq!((r.input_tokens, r.output_tokens), (7, 3));
    match &r.content[0] {
        ContentBlock::ToolUse { id, name, input, .. } => {
            assert_eq!(id, "call_1");
            assert_eq!(name, "get_weather");
            assert_eq!(input, "{\"city\":\"Paris\"}");
        }
        other => panic!("unexpected block {other:?}"),
    }
}

#[test]
fn an_openai_text_reply_collects_into_the_same_text_block() {
    let mut dec = OpenAiDecoder::new();
    let mut events: Vec<Result<StreamEvent, LlmError>> = Vec::new();
    for f in vec![
        chunk(OpenAiChoice { content: Some("Hel".to_string()), ..choice() }),
        chunk(OpenAiChoice { content: Some("lo".to_string()), finish_reason: Some("stop".to_string()), ..choice() }),
        OpenAiFrame { data: "[DONE]".to_string(), chunk: Err("x".to_string()) },
    ] {
        let out = dec.step(f);
        events.extend(out.events.into_iter().map(Ok));
    }
    let r = collect_stream(&events).unwrap();
    assert_eq!(r.content, vec![ContentBlock::Text { text: "Hello".to_string() }]);
    assert_eq!(r.stop_reason, StopReason::EndTurn);
}

#[test]
fn openai_bodies_put_the_system_prompt_first_and_replay_tool_calls() {
    let mut r = req(false, vec![]);
    r.messages.push(LlmMessage {
        role: LlmRole::Assistant,
        content: vec![ContentBlock::ToolUse { id: "c1".to_string(), name: "f".to_string(), input: "{}".to_string(), thought_signature: None }],
    });
    r.messages.push(LlmMessage {
        role: LlmRole::User,
        content: vec![ContentBlock::ToolResult { tool_use_id: "c1".to_string(), content: "42".to_string(), is_error: false }],
    });
    let b = openai::build_body("gpt", &r, true);
    assert!(matches!(&b.messages[0], OpenAiMessage::System { content } if content == "sys"));
    assert!(matches!(&b.messages[1], OpenAiMessage::Chat { role, content: Some(c), .. } if role == "user" && c == "hi"));
    match &b.messages[2] {
        OpenAiMessage::Chat { role, content: None, tool_calls } => {
            assert_eq!(role, "assistant");
            assert_eq!(tool_calls[0].id, "c1");
        }
        other => panic!("unexpected message {other:?}"),
    }
    assert!(matches!(&b.messages[3], OpenAiMessage::Tool { tool_call_id, content } if tool_call_id == "c1" && content == "42"));
}

fn gchunk(parts: Vec<GeminiPartDelta>, finish: Option<&str>, usage: Option<(u64, u64)>) -> Result<GeminiChunk, String> {
    Ok(GeminiChunk {
        usage: usage.map(|(p, c)| GeminiUsage { prompt_token_count: Some(p), candidates_token_count: Some(c) }),
        candidate: Some(GeminiCandidate { finish_reason: finish.map(|s| s.to_string()), parts: Some(parts) }),
    })
}

fn text_part(t: &str) -> GeminiPartDelta {
    GeminiPartDelta { text: Some(t.to_string()), function_call: None, thought_signature: None }
}

#[test]
fn a_gemini_text_reply_collects_into_the_same_text_block() {
    let mut dec = GeminiDecoder::new();
    let mut events: Vec<Result<StreamEvent, LlmError>> = Vec::new();
    for c in vec![gchunk(vec![text_part("Hel")], None, None), gchunk(vec![text_part("lo")], Some("STOP"), Some((4, 2)))] {
        assert!(dec.has_room(&c));
        let out = dec.step(c);
        events.extend(out.events.into_iter().map(Ok));
    }
    events.extend(dec.finish().into_iter().map(Ok));
    let r = collect_stream(&events).unwrap();
    assert_eq!(r.content, vec![ContentBlock::Text { text: "Hello".to_string() }]);
    assert_eq!(r.stop_reason, StopReason::EndTurn);
    assert_eq!((r.input_tokens, r.output_tokens), (4, 2));
}

#[test]
fn a_gemini_function_call_is_a_tool_use_named_after_the_function() {
    let mut dec = GeminiDecoder::new();
    let call = GeminiPartDelta {
        text: None,
        function_call: Some(GeminiCall { name: Some("lookup".to_string()), args_json: "{\"q\":1}".to_string() }),
        thought_signature: Some("sig".to_string()),
    };
    let mut events: Vec<Result<StreamEvent, LlmError>> = dec.step(gchunk(vec![call], Some("STOP"), None)).events.into_iter().map(Ok).collect();
    events.extend(dec.finish().into_iter().map(Ok));
    let r = collect_stream(&events).unwrap();
    assert_eq!(r.stop_reason, StopReason::ToolUse);
    assert_eq!(
        r.content,
        vec![ContentBlock::ToolUse {
            id: "lookup".to_string(),
            name: "lookup".to_string(),
            input: "{\"q\":1}".to_string(),
            thought_signature: Some("sig".to_string()),
        }]
    );
}

#[test]
fn gemini_bodies_use_the_model_role_and_carry_signatures() {
    let mut r = req(false, vec![]);
    r.messages.push(LlmMessage {
        role: LlmRole::Assistant,
        content: vec![ContentBlock::ToolUse { id: "f".to_string(), name: "f".to_string(), input: "{}".to_string(), thought_signature: Some("s".to_string()) }],
    });
    let b = gemini::build_body(&r);
    assert_eq!(b.contents[1].role, "model");
    assert!(matches!(&b.contents[1].parts[0], GeminiPart::FunctionCall { thought_signature: Some(s), .. } if s == "s"));
    assert_eq!(b.system_instruction.as_deref(), Some("sys"));
    assert_eq!(b.max_output_tokens, 100);
}

#[test]
fn roles_are_spelled_per_provider() {
    assert_eq!(anthropic::role_to_str(&LlmRole::Assistant), "assistant");
    assert_eq!(openai::role_to_str(&LlmRole::User), "user");
    assert_eq!(gemini::role_to_str(&LlmRole::Assistant), "model");
}

#[test]
fn base_urls_default_per_provider() {
    assert_eq!(default_base_url(ProviderKind::OpenRouter), "https://openrouter.ai/api");
    let c = ModelConfig { provider: ProviderKind::Anthropic, model_id: "m".to_string(), api_key: "k".to_string(), base_url: None };
    assert_eq!(base_url_for(&c), "https://api.anthropic.com");
    let c = ModelConfig { base_url: Some("http://localhost:1".to_string()), ..c };
    assert_eq!(base_url_for(&c), "http://localhost:1");
}

#[test]
fn model_listings_keep_entries_with_ids() {
    assert_eq!(fake_models()[0].id, "fake-model");
    let entries = vec![
        ModelEntry { id: Some("a".to_string()), display_name: Some("A".to_string()) },
        ModelEntry { id: None, display_name: Some("skip".to_string()) },
    ];
    let ms = models_from_listing(Some(entries.clone()), true).unwrap();
    assert_eq!(ms.len(), 1);
    assert_eq!(ms[0].label.as_deref(), Some("A"));
    assert_eq!(models_from_listing(Some(entries), false).unwrap()[0].label, None);
    assert_eq!(models_from_listing(None, true), Err(LlmError::ParseError("missing data".to_string())));
    let v = validation_request();
    assert_eq!(v.max_tokens, 8);
}

fn openai_choice_with(content: &str) -> OpenAiChoice {
    OpenAiChoice { content: Some(content.to_string()), tool_calls: None, finish_reason: None }
}

#[test]
fn an_openai_chunk_reads_its_first_choice_and_drops_a_null_usage() {
    let c = OpenAiChunk::new(Some(None), vec![openai_choice_with("first"), openai_choice_with("second")]);
    assert!(c.usage.is_none());
    assert_eq!(c.choice.unwrap().content.as_deref(), Some("first"));
    let usage = OpenAiUsage { prompt_tokens: Some(7), completion_tokens: Some(3) };
    let c = OpenAiChunk::new(Some(Some(usage)), vec![]);
    assert_eq!(c.usage.unwrap().prompt_tokens, Some(7));
    assert!(c.choice.is_none());
    assert!(OpenAiChunk::new(None, vec![]).usage.is_none());
}

#[test]
fn a_gemini_chunk_reads_its_first_candidate() {
    let candidate = |reason: &str| GeminiCandidate { finish_reason: Some(reason.to_string()), parts: None };
    let usage = GeminiUsage { prompt_token_count: Some(4), candidates_token_count: None };
    let c = GeminiChunk::new(Some(usage), vec![candidate("STOP"), candidate("MAX_TOKENS")]);
    assert_eq!(c.candidate.unwrap().finish_reason.as_deref(), Some("STOP"));
    assert_eq!(c.usage.unwrap().prompt_token_count, Some(4));
    assert!(GeminiChunk::new(None, vec![]).candidate.is_none());
}

#[test]
fn a_refused_request_names_the_provider_status_and_body() {
    assert!(is_success_status(200));
    assert!(is_success_status(204));
    assert!(!is_success_status(199));
    assert!(!is_success_status(301));
    assert!(!is_success_status(401));
    assert_eq!(
        status_error("anthropic", "401 Unauthorized", "bad key"),
        LlmError::ProviderError("anthropic returned 401 Unauthorized: bad key".to_string())
    );
}

fn field<'a>(v: &'a JsonValue, key: &str) -> &'a JsonValue {
    match v {
        JsonValue::Object(ms) => &ms.iter().find(|m| m.key == key).expect("member present").value,
        other => panic!("not an object: {other:?}"),
    }
}

fn keys(v: &JsonValue) -> Vec<&str> {
    match v {
        JsonValue::Object(ms) => ms.iter().map(|m| m.key.as_str()).collect(),
        other => panic!("not an object: {other:?}"),
    }
}

fn item(v: &JsonValue, i: usize) -> &JsonValue {
    match v {
        JsonValue::Array(xs) => &xs[i],
        other => panic!("not an array: {other:?}"),
    }
}

fn is_str(v: &JsonValue, s: &str) -> bool {
    matches!(v, JsonValue::Str(x) if x == s)
}

#[test]
fn an_anthropic_body_renders_with_its_reasoning_budget_and_tools() {
    let tool = ToolDefinition { name: "t".to_string(), description: "d".to_string(), input_schema: "{\"type\":\"object\"}".to_string() };
    let mut r = req(true, vec![tool]);
    r.messages.push(LlmMessage {
        role: LlmRole::Assistant,
        content: vec![ContentBlock::Thinking { text: "hmm".to_string(), signature: None }],
    });
    let v = anthropic_body_json(&anthropic::build_body("sonnet", &r, true));
    assert_eq!(keys(&v), vec!["model", "max_tokens", "messages", "stream", "system", "tools", "thinking"]);
    assert!(is_str(field(&v, "model"), "sonnet"));
    assert!(matches!(field(&v, "max_tokens"), JsonValue::Number(3072)));
    assert!(matches!(field(&v, "stream"), JsonValue::Bool(true)));
    assert!(matches!(field(field(&v, "thinking"), "budget_tokens"), JsonValue::Number(2048)));
    let t = item(field(&v, "tools"), 0);
    assert!(matches!(field(t, "input_schema"), JsonValue::Embedded(s) if s == "{\"type\":\"object\"}"));
    let first = item(field(item(field(&v, "messages"), 0), "content"), 0);
    assert!(is_str(field(first, "type"), "text"));
    assert!(is_str(field(first, "text"), "hi"));
    let thinking = item(field(item(field(&v, "messages"), 1), "content"), 0);
    assert_eq!(keys(thinking), vec!["type", "thinking", "signature"]);
    assert!(matches!(field(thinking, "signature"), JsonValue::Null));
}

#[test]
fn an_openai_body_renders_tool_calls_only_when_present_and_asks_for_usage() {
    let mut r = req(false, vec![]);
    r.messages.push(LlmMessage {
        role: LlmRole::Assistant,
        content: vec![ContentBlock::ToolUse { id: "c1".to_string(), name: "f".to_string(), input: "{}".to_string(), thought_signature: None }],
    });
    let v = openai_body_json(&openai::build_body("gpt", &r, true));
    assert_eq!(keys(&v), vec!["model", "max_tokens", "messages", "stream", "stream_options"]);
    assert!(matches!(field(field(&v, "stream_options"), "include_usage"), JsonValue::Bool(true)));
    let msgs = field(&v, "messages");
    assert_eq!(keys(item(msgs, 0)), vec!["role", "content"]);
    assert_eq!(keys(item(msgs, 1)), vec!["role", "content"]);
    let call_msg = item(msgs, 2);
    assert_eq!(keys(call_msg), vec!["role", "content", "tool_calls"]);
    assert!(matches!(field(call_msg, "content"), JsonValue::Null));
    let call = item(field(call_msg, "tool_calls"), 0);
    assert!(is_str(field(call, "type"), "function"));
    assert!(is_str(field(field(call, "function"), "arguments"), "{}"));
}

#[test]
fn a_gemini_body_renders_signatures_and_the_token_limit() {
    let mut r = req(false, vec![]);
    r.messages.push(LlmMessage {
        role: LlmRole::Assistant,
        content: vec![ContentBlock::ToolUse { id: "f".to_string(), name: "f".to_string(), input: "{\"a\":1}".to_string(), thought_signature: Some("s".to_string()) }],
    });
    let v = gemini_body_json(&gemini::build_body(&r));
    assert_eq!(keys(&v), vec!["contents", "systemInstruction", "generationConfig"]);
    assert!(matches!(field(field(&v, "generationConfig"), "maxOutputTokens"), JsonValue::Number(100)));
    assert!(is_str(field(item(field(field(&v, "systemInstruction"), "parts"), 0), "text"), "sys"));
    let part = item(field(item(field(&v, "contents"), 1), "parts"), 0);
    assert_eq!(keys(part), vec!["functionCall", "thoughtSignature"]);
    assert!(matches!(field(field(part, "functionCall"), "args"), JsonValue::Embedded(s) if s == "{\"a\":1}"));
    let plain = item(field(item(field(&v, "contents"), 0), "parts"), 0);
    assert_eq!(keys(plain), vec!["text"]);
}
