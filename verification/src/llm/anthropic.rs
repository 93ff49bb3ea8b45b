use vstd::prelude::*;

use crate::llm::sse::{
    fail, fail_with, finish_with, go_on, invalid_json, invalid_json_error, nothing, one, other_reason, parse_error,
    StepEnd, StepModel, StepOutput,
};
use crate::llm::stream::{clone_blocks, offered, offered_tools};
use crate::llm::types::{ContentBlock, LlmRequest, LlmRole, ToolDefinition, ErrorModel, EventModel, LlmError, PartialBlock, PartialModel, StopModel, StopReason, StreamEvent};
use crate::text::{debug_opt_str, debug_text_of_opt_str, join2, or_empty, or_empty_spec, str_eq};

verus! {

/// The `content_block` object of a `content_block_start` frame.
#[derive(Debug, Clone)]
pub struct AnthropicBlockInfo {
    pub kind: Option<String>,
    pub id: Option<String>,
    pub name: Option<String>,
}

/// The `delta` object of a `content_block_delta` or `message_delta` frame.
#[derive(Debug, Clone)]
pub struct AnthropicDelta {
    pub kind: Option<String>,
    pub text: Option<String>,
    pub partial_json: Option<String>,
    pub thinking: Option<String>,
    pub signature: Option<String>,
    pub stop_reason: Option<String>,
}

/// What the decoder reads of a frame's JSON data. Numbers are present only when the JSON holds
/// an unsigned integer there.
#[derive(Debug, Clone)]
pub struct AnthropicData {
    /// `message.usage.input_tokens`
    pub input_tokens: Option<u64>,
    /// `index`
    pub index: Option<u64>,
    pub content_block: Option<AnthropicBlockInfo>,
    pub delta: Option<AnthropicDelta>,
    /// `usage.output_tokens`
    pub output_tokens: Option<u64>,
    /// The JSON value written back out as text.
    pub rendered: String,
}

/// One server-sent event: its name, and its data read as JSON (or the JSON parser's message).
#[derive(Debug)]
pub struct AnthropicFrame {
    pub event: String,
    pub data: Result<AnthropicData, String>,
}

pub open spec fn count_u32(o: Option<u64>) -> u32 {
    match o {
        Some(v) => v as u32,
        None => 0,
    }
}

pub open spec fn index_usize(o: Option<u64>) -> usize {
    match o {
        Some(v) => v as usize,
        None => 0,
    }
}

pub open spec fn opt_view(o: Option<String>) -> Option<Seq<char>> {
    match o {
        Some(s) => Some(s@),
        None => None,
    }
}

/// How the Messages API names the reason a reply stopped.
pub open spec fn anthropic_stop_reason(s: Option<Seq<char>>) -> StopModel {
    match s {
        Some(r) => if r == "end_turn"@ {
            StopModel::EndTurn
        } else if r == "tool_use"@ {
            StopModel::ToolUse
        } else if r == "max_tokens"@ {
            StopModel::MaxTokens
        } else {
            StopModel::Other(r)
        },
        None => StopModel::Other("unknown"@),
    }
}

pub open spec fn block_start(index: usize, b: AnthropicBlockInfo) -> StepModel {
    let kind = opt_view(b.kind);
    if kind == Some("text"@) {
        go_on(seq![EventModel::ContentBlockStart { index, block: PartialModel::Text }])
    } else if kind == Some("tool_use"@) {
        go_on(seq![EventModel::ContentBlockStart {
            index,
            block: PartialModel::ToolUse {
                id: or_empty_spec(opt_view(b.id)),
                name: or_empty_spec(opt_view(b.name)),
                thought_signature: None,
            },
        }])
    } else if kind == Some("thinking"@) {
        go_on(seq![EventModel::ContentBlockStart { index, block: PartialModel::Thinking }])
    } else {
        fail_with(ErrorModel::ParseError("unknown content_block type: "@ + debug_text_of_opt_str(kind)))
    }
}

pub open spec fn block_delta(index: usize, d: AnthropicDelta) -> StepModel {
    let kind = opt_view(d.kind);
    if kind == Some("text_delta"@) {
        go_on(seq![EventModel::TextDelta { index, text: or_empty_spec(opt_view(d.text)) }])
    } else if kind == Some("input_json_delta"@) {
        go_on(seq![EventModel::ToolInputDelta { index, partial_json: or_empty_spec(opt_view(d.partial_json)) }])
    } else if kind == Some("thinking_delta"@) {
        go_on(seq![EventModel::ThinkingDelta { index, text: or_empty_spec(opt_view(d.thinking)) }])
    } else if kind == Some("signature_delta"@) {
        go_on(seq![EventModel::ThinkingSignature { index, signature: or_empty_spec(opt_view(d.signature)) }])
    } else {
        go_on(Seq::empty())
    }
}

/// One frame of an Anthropic Messages stream, given the input token count seen so far: the new
/// count and what the frame yields. `message_delta` completes the reply; `error` fails it.
pub open spec fn anthropic_step(input_tokens: u32, f: AnthropicFrame) -> (u32, StepModel) {
    let ev = f.event@;
    if ev == "message_start"@ {
        match f.data {
            Err(m) => (input_tokens, fail_with(invalid_json_error(ev, m@))),
            Ok(d) => (count_u32(d.input_tokens), go_on(Seq::empty())),
        }
    } else if ev == "content_block_start"@ {
        match f.data {
            Err(m) => (input_tokens, fail_with(invalid_json_error(ev, m@))),
            Ok(d) => match d.content_block {
                None => (input_tokens, fail_with(ErrorModel::ParseError("missing content_block"@))),
                Some(b) => (input_tokens, block_start(index_usize(d.index), b)),
            },
        }
    } else if ev == "content_block_delta"@ {
        match f.data {
            Err(m) => (input_tokens, fail_with(invalid_json_error(ev, m@))),
            Ok(d) => match d.delta {
                None => (input_tokens, fail_with(ErrorModel::ParseError("missing delta"@))),
                Some(dl) => (input_tokens, block_delta(index_usize(d.index), dl)),
            },
        }
    } else if ev == "content_block_stop"@ {
        match f.data {
            Err(m) => (input_tokens, fail_with(invalid_json_error(ev, m@))),
            Ok(d) => (input_tokens, go_on(seq![EventModel::ContentBlockDone { index: index_usize(d.index) }])),
        }
    } else if ev == "message_delta"@ {
        match f.data {
            Err(m) => (input_tokens, fail_with(invalid_json_error(ev, m@))),
            Ok(d) => {
                let reason = match d.delta {
                    Some(dl) => opt_view(dl.stop_reason),
                    None => None,
                };
                (input_tokens, finish_with(seq![EventModel::Done {
                    stop_reason: anthropic_stop_reason(reason),
                    input_tokens,
                    output_tokens: count_u32(d.output_tokens),
                }]))
            },
        }
    } else if ev == "error"@ {
        let rendered = match f.data {
            Ok(d) => d.rendered@,
            Err(_) => "null"@,
        };
        (input_tokens, fail_with(ErrorModel::ProviderError("anthropic stream error: "@ + rendered)))
    } else {
        (input_tokens, go_on(Seq::empty()))
    }
}

fn count_of(o: Option<u64>) -> (r: u32)
    ensures
        r == count_u32(o),
{
    match o {
        Some(v) => v as u32,
        None => 0,
    }
}

fn index_of(o: Option<u64>) -> (r: usize)
    ensures
        r == index_usize(o),
{
    match o {
        Some(v) => v as usize,
        None => 0,
    }
}

fn opt_is(o: &Option<String>, lit: &str) -> (r: bool)
    ensures
        r == (opt_view(*o) == Some(lit@)),
{
    match o {
        Some(s) => str_eq(s.as_str(), lit),
        None => false,
    }
}

fn stop_reason_of(s: Option<String>) -> (r: StopReason)
    ensures
        r.deep_view() == anthropic_stop_reason(opt_view(s)),
{
    match s {
        Some(r) => {
            if str_eq(r.as_str(), "end_turn") {
                StopReason::EndTurn
            } else if str_eq(r.as_str(), "tool_use") {
                StopReason::ToolUse
            } else if str_eq(r.as_str(), "max_tokens") {
                StopReason::MaxTokens
            } else {
                StopReason::Other(r)
            }
        },
        None => other_reason("unknown"),
    }
}

fn start_of(index: usize, b: AnthropicBlockInfo) -> (o: StepOutput)
    ensures
        o.deep_view() == block_start(index, b),
{
    if opt_is(&b.kind, "text") {
        one(StreamEvent::ContentBlockStart { index, block: PartialBlock::Text })
    } else if opt_is(&b.kind, "tool_use") {
        one(StreamEvent::ContentBlockStart {
            index,
            block: PartialBlock::ToolUse { id: or_empty(b.id), name: or_empty(b.name), thought_signature: None },
        })
    } else if opt_is(&b.kind, "thinking") {
        one(StreamEvent::ContentBlockStart { index, block: PartialBlock::Thinking })
    } else {
        let shown = match &b.kind {
            Some(k) => debug_opt_str(Some(k.as_str())),
            None => debug_opt_str(None),
        };
        fail(LlmError::ParseError(join2("unknown content_block type: ", shown.as_str())))
    }
}

fn delta_of(index: usize, d: AnthropicDelta) -> (o: StepOutput)
    ensures
        o.deep_view() == block_delta(index, d),
{
    if opt_is(&d.kind, "text_delta") {
        one(StreamEvent::TextDelta { index, text: or_empty(d.text) })
    } else if opt_is(&d.kind, "input_json_delta") {
        one(StreamEvent::ToolInputDelta { index, partial_json: or_empty(d.partial_json) })
    } else if opt_is(&d.kind, "thinking_delta") {
        one(StreamEvent::ThinkingDelta { index, text: or_empty(d.thinking) })
    } else if opt_is(&d.kind, "signature_delta") {
        one(StreamEvent::ThinkingSignature { index, signature: or_empty(d.signature) })
    } else {
        nothing()
    }
}

/// Decodes an Anthropic Messages event stream frame by frame (see `anthropic_step`).
pub struct AnthropicDecoder {
    /// The input token count announced by `message_start`.
    pub input_tokens: u32,
}

impl AnthropicDecoder {
    pub fn new() -> (d: AnthropicDecoder)
        ensures
            d.input_tokens == 0,
    {
        AnthropicDecoder { input_tokens: 0 }
    }

    pub fn step(&mut self, f: AnthropicFrame) -> (o: StepOutput)
        ensures
            (final(self).input_tokens, o.deep_view()) == anthropic_step(old(self).input_tokens, f),
    {
        let ghost f0 = f;
        let ev = f.event;
        if str_eq(ev.as_str(), "message_start") {
            match f.data {
                Err(m) => fail(invalid_json(ev.as_str(), m.as_str())),
                Ok(d) => {
                    self.input_tokens = count_of(d.input_tokens);
                    nothing()
                },
            }
        } else if str_eq(ev.as_str(), "content_block_start") {
            match f.data {
                Err(m) => fail(invalid_json(ev.as_str(), m.as_str())),
                Ok(d) => match d.content_block {
                    None => fail(parse_error("missing content_block")),
                    Some(b) => start_of(index_of(d.index), b),
                },
            }
        } else if str_eq(ev.as_str(), "content_block_delta") {
            match f.data {
                Err(m) => fail(invalid_json(ev.as_str(), m.as_str())),
                Ok(d) => match d.delta {
                    None => fail(parse_error("missing delta")),
                    Some(dl) => delta_of(index_of(d.index), dl),
                },
            }
        } else if str_eq(ev.as_str(), "content_block_stop") {
            match f.data {
                Err(m) => fail(invalid_json(ev.as_str(), m.as_str())),
                Ok(d) => one(StreamEvent::ContentBlockDone { index: index_of(d.index) }),
            }
        } else if str_eq(ev.as_str(), "message_delta") {
            match f.data {
                Err(m) => fail(invalid_json(ev.as_str(), m.as_str())),
                Ok(d) => {
                    let reason = match d.delta {
                        Some(dl) => dl.stop_reason,
                        None => None,
                    };
                    let mut v: Vec<StreamEvent> = Vec::new();
                    v.push(StreamEvent::Done {
                        stop_reason: stop_reason_of(reason),
                        input_tokens: self.input_tokens,
                        output_tokens: count_of(d.output_tokens),
                    });
                    assert(v.deep_view() =~= seq![v@[0].deep_view()]);
                    StepOutput { events: v, end: StepEnd::Finished }
                },
            }
        } else if str_eq(ev.as_str(), "error") {
            let rendered = match f.data {
                Ok(d) => d.rendered,
                Err(_) => String::from_str("null"),
            };
            fail(LlmError::ProviderError(join2("anthropic stream error: ", rendered.as_str())))
        } else {
            nothing()
        }
    }
}


/// How the Messages API names a role.
pub fn role_to_str(role: &LlmRole) -> (r: &'static str)
    ensures
        r@ == match role {
            LlmRole::User => "user"@,
            LlmRole::Assistant => "assistant"@,
        },
{
    match role {
        LlmRole::User => "user",
        LlmRole::Assistant => "assistant",
    }
}

/// The reasoning budget sent when a request asks for a reasoning trace.
pub const THINKING_BUDGET_TOKENS: u32 = 2048;

/// Room left for the visible reply on top of the reasoning budget.
pub const REPLY_TOKENS_OVER_BUDGET: u32 = 1024;

/// One message of a Messages API request body: its role, and its blocks as they were given.
#[derive(Debug)]
pub struct AnthropicMessage {
    pub role: String,
    pub content: Vec<ContentBlock>,
}

/// A Messages API request body. `tools` is absent when the request offers none, and
/// `thinking_budget` when it does not ask for reasoning.
#[derive(Debug)]
pub struct AnthropicBody {
    pub model: String,
    pub max_tokens: u32,
    pub messages: Vec<AnthropicMessage>,
    pub stream: bool,
    pub system: Option<String>,
    pub tools: Option<Vec<ToolDefinition>>,
    pub thinking_budget: Option<u32>,
}

/// The token limit sent: the request's own, raised when reasoning is on so that the reply
/// keeps `REPLY_TOKENS_OVER_BUDGET` tokens beyond the reasoning budget.
pub open spec fn anthropic_max_tokens(max_tokens: u32, enable_reasoning: bool) -> u32 {
    if enable_reasoning && max_tokens < THINKING_BUDGET_TOKENS + REPLY_TOKENS_OVER_BUDGET {
        (THINKING_BUDGET_TOKENS + REPLY_TOKENS_OVER_BUDGET) as u32
    } else {
        max_tokens
    }
}

pub open spec fn role_text(role: LlmRole) -> Seq<char> {
    match role {
        LlmRole::User => "user"@,
        LlmRole::Assistant => "assistant"@,
    }
}

/// Builds the request body for `model` from a request.
pub fn build_body(model: &str, request: &LlmRequest, stream: bool) -> (b: AnthropicBody)
    ensures
        b.model@ == model@,
        b.max_tokens == anthropic_max_tokens(request.max_tokens, request.enable_reasoning),
        b.stream == stream,
        b.system == request.system,
        b.thinking_budget == (if request.enable_reasoning { Some(THINKING_BUDGET_TOKENS) } else { None::<u32> }),
        match b.tools {
            Some(t) => offered_tools(request.tools@) == Some(t@),
            None => offered_tools(request.tools@) is None,
        },
        b.messages.len() == request.messages.len(),
        forall|i: int| 0 <= i < b.messages.len() ==> {
            &&& (#[trigger] b.messages@[i]).role@ == role_text(request.messages@[i].role)
            &&& b.messages@[i].content@ == request.messages@[i].content@
        },
{
    let mut messages: Vec<AnthropicMessage> = Vec::new();
    let mut i: usize = 0;
    while i < request.messages.len()
        invariant
            i <= request.messages.len(),
            messages.len() == i,
            forall|j: int| 0 <= j < i ==> {
                &&& (#[trigger] messages@[j]).role@ == role_text(request.messages@[j].role)
                &&& messages@[j].content@ == request.messages@[j].content@
            },
        decreases request.messages.len() - i,
    {
        let m = &request.messages[i];
        let role = String::from_str(role_to_str(&m.role));
        messages.push(AnthropicMessage { role, content: clone_blocks(&m.content) });
        i = i + 1;
    }
    let max_tokens = if request.enable_reasoning && request.max_tokens < THINKING_BUDGET_TOKENS + REPLY_TOKENS_OVER_BUDGET {
        THINKING_BUDGET_TOKENS + REPLY_TOKENS_OVER_BUDGET
    } else {
        request.max_tokens
    };
    AnthropicBody {
        model: String::from_str(model),
        max_tokens,
        messages,
        stream,
        system: crate::text::clone_opt(&request.system),
        tools: offered(&request.tools),
        thinking_budget: if request.enable_reasoning { Some(THINKING_BUDGET_TOKENS) } else { None },
    }
}

/// Where the Messages API lives unless configured otherwise.
pub fn default_base_url() -> (r: String)
    ensures
        r@ == "https://api.anthropic.com"@,
{
    String::from_str("https://api.anthropic.com")
}

} // verus!

verus! {

/// A `content_block_start` frame announcing a tool call opens, at the frame's index, a tool-use
/// block whose id is the frame's `content_block.id` and whose name is its `content_block.name`
/// (each empty when the frame leaves it out); the stream goes on.
pub proof fn lemma_tool_use_start_carries_id_and_name(input_tokens: u32, f: AnthropicFrame)
    requires
        f.event@ == "content_block_start"@,
        f.data matches Ok(d) && d.content_block matches Some(b) && b.kind matches Some(k) && k@ == "tool_use"@,
    ensures
        ({
            let d = f.data->Ok_0;
            let b = d.content_block->Some_0;
            let id = match b.id {
                Some(s) => s@,
                None => Seq::<char>::empty(),
            };
            let name = match b.name {
                Some(s) => s@,
                None => Seq::<char>::empty(),
            };
            anthropic_step(input_tokens, f) == (
                input_tokens,
                StepModel {
                    events: seq![EventModel::ContentBlockStart {
                        index: index_usize(d.index),
                        block: PartialModel::ToolUse { id, name, thought_signature: None },
                    }],
                    end: crate::llm::sse::EndModel::Continue,
                },
            )
        }),
{
    reveal_strlit("message_start");
    reveal_strlit("content_block_start");
    reveal_strlit("tool_use");
    reveal_strlit("text");
    let d = f.data->Ok_0;
    let b = d.content_block->Some_0;
    assert("content_block_start"@.len() == 19);
    assert("message_start"@.len() == 13);
    assert(f.event@ != "message_start"@);
    assert(opt_view(b.kind) == Some("tool_use"@));
    assert("tool_use"@.len() == 8 && "text"@.len() == 4);
    assert(opt_view(b.kind) != Some("text"@));
    assert(anthropic_step(input_tokens, f) == (input_tokens, block_start(index_usize(d.index), b)));
}

} // verus!

verus! {

/// A `content_block_delta` frame feeds the block at the frame's index: a tool call's input
/// fragment is appended as tool input, a text fragment as text, each carried as it stands.
pub proof fn lemma_delta_frames_feed_their_block(input_tokens: u32, f: AnthropicFrame)
    requires
        f.event@ == "content_block_delta"@,
        f.data matches Ok(d) && d.delta is Some,
    ensures
        ({
            let d = f.data->Ok_0;
            let dl = d.delta->Some_0;
            let (n, out) = anthropic_step(input_tokens, f);
            &&& n == input_tokens
            &&& out.end == crate::llm::sse::EndModel::Continue
            &&& (dl.kind matches Some(k) && k@ == "input_json_delta"@) ==> out.events == seq![
                EventModel::ToolInputDelta {
                    index: index_usize(d.index),
                    partial_json: match dl.partial_json {
                        Some(s) => s@,
                        None => Seq::<char>::empty(),
                    },
                },
            ]
            &&& (dl.kind matches Some(k) && k@ == "text_delta"@) ==> out.events == seq![
                EventModel::TextDelta {
                    index: index_usize(d.index),
                    text: match dl.text {
                        Some(s) => s@,
                        None => Seq::<char>::empty(),
                    },
                },
            ]
        }),
{
    reveal_strlit("message_start");
    reveal_strlit("content_block_start");
    reveal_strlit("content_block_delta");
    reveal_strlit("text_delta");
    reveal_strlit("input_json_delta");
    assert("content_block_delta"@.len() == 19);
    assert("message_start"@.len() == 13);
    assert("content_block_start"@[14] != "content_block_delta"@[14]);
    assert(f.event@ != "message_start"@);
    assert(f.event@ != "content_block_start"@);
    assert("text_delta"@.len() == 10 && "input_json_delta"@.len() == 16);
}

/// A `content_block_stop` frame closes the block at the frame's index.
pub proof fn lemma_stop_frame_closes_its_block(input_tokens: u32, f: AnthropicFrame)
    requires
        f.event@ == "content_block_stop"@,
        f.data is Ok,
    ensures
        anthropic_step(input_tokens, f) == (
            input_tokens,
            go_on(seq![EventModel::ContentBlockDone { index: index_usize(f.data->Ok_0.index) }]),
        ),
{
    reveal_strlit("message_start");
    reveal_strlit("content_block_start");
    reveal_strlit("content_block_delta");
    reveal_strlit("content_block_stop");
    assert("content_block_stop"@.len() == 18);
    assert("message_start"@.len() == 13);
    assert("content_block_start"@.len() == 19);
    assert("content_block_delta"@.len() == 19);
    assert(f.event@ != "message_start"@);
    assert(f.event@ != "content_block_start"@);
    assert(f.event@ != "content_block_delta"@);
}

} // verus!
