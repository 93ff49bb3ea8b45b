use vstd::prelude::*;

use std::collections::BTreeMap;
use crate::llm::anthropic::{count_u32, opt_view};
use crate::llm::sse::{fail, fail_with, finish_with, go_on, StepEnd, StepModel, StepOutput};
use crate::llm::stream::{clone_opt_string, offered, offered_tools};
use crate::llm::types::{
    BlockModel, ContentBlock, ErrorModel, EventModel, LlmError, LlmMessage, LlmRequest, LlmRole, PartialBlock,
    PartialModel, StopModel, StopReason, StreamEvent, ToolDefinition, event_block,
};
use crate::text::{join2, or_empty, or_empty_spec, str_eq};

verus! {

/// How the Chat Completions API names a role.
pub fn role_to_str(role: &LlmRole) -> (r: &'static str)
    ensures
        r@ == match role {
            LlmRole::User => "user"@,
            LlmRole::Assistant => "assistant"@,
        },
{
    match role {
        LlmRole::User => "user",
        LlmRole::Assistant => "assistant",
    }
}

/// Where the Chat Completions API lives unless configured otherwise.
pub fn default_base_url() -> (r: String)
    ensures
        r@ == "https://api.openai.com"@,
{
    String::from_str("https://api.openai.com")
}

// ------------------------------------------------------------------------------------------
// Request body

/// A tool call replayed into a request; `arguments` is the call's JSON input text.
#[derive(Debug)]
pub struct OpenAiToolCall {
    pub id: String,
    pub name: String,
    pub arguments: String,
}

/// One message of a Chat Completions request body.
#[derive(Debug)]
pub enum OpenAiMessage {
    System { content: String },
    /// `content` is absent when the message carries tool calls only; `tool_calls` is left out
    /// of the body when empty.
    Chat { role: String, content: Option<String>, tool_calls: Vec<OpenAiToolCall> },
    Tool { tool_call_id: String, content: String },
}

pub struct CallModel {
    pub id: Seq<char>,
    pub name: Seq<char>,
    pub arguments: Seq<char>,
}

pub enum OpenAiMessageModel {
    System { content: Seq<char> },
    Chat { role: Seq<char>, content: Option<Seq<char>>, tool_calls: Seq<CallModel> },
    Tool { tool_call_id: Seq<char>, content: Seq<char> },
}

impl DeepView for OpenAiToolCall {
    type V = CallModel;

    open spec fn deep_view(&self) -> CallModel {
        CallModel { id: self.id@, name: self.name@, arguments: self.arguments@ }
    }
}

impl DeepView for OpenAiMessage {
    type V = OpenAiMessageModel;

    open spec fn deep_view(&self) -> OpenAiMessageModel {
        match self {
            OpenAiMessage::System { content } => OpenAiMessageModel::System { content: content@ },
            OpenAiMessage::Chat { role, content, tool_calls } => OpenAiMessageModel::Chat {
                role: role@,
                content: content.deep_view(),
                tool_calls: tool_calls.deep_view(),
            },
            OpenAiMessage::Tool { tool_call_id, content } => OpenAiMessageModel::Tool {
                tool_call_id: tool_call_id@,
                content: content@,
            },
        }
    }
}

/// A Chat Completions request body. `tools` is absent when the request offers none; a
/// streaming body also asks for usage figures.
#[derive(Debug)]
pub struct OpenAiBody {
    pub model: String,
    pub max_tokens: u32,
    pub messages: Vec<OpenAiMessage>,
    pub tools: Option<Vec<ToolDefinition>>,
    pub stream: bool,
}

/// Whether any of the first `n` blocks is text.
pub open spec fn has_text(bs: Seq<BlockModel>, n: nat) -> bool
    decreases n,
{
    if n == 0 {
        false
    } else {
        has_text(bs, (n - 1) as nat) || bs[n - 1] is Text
    }
}

/// The texts of the first `n` blocks, joined with nothing between them.
pub open spec fn joined_text(bs: Seq<BlockModel>, n: nat) -> Seq<char>
    decreases n,
{
    if n == 0 {
        Seq::empty()
    } else {
        joined_text(bs, (n - 1) as nat) + match bs[n - 1] {
            BlockModel::Text { text } => text,
            _ => Seq::empty(),
        }
    }
}

/// The tool calls among the first `n` blocks.
pub open spec fn calls_of(bs: Seq<BlockModel>, n: nat) -> Seq<CallModel>
    decreases n,
{
    if n == 0 {
        Seq::empty()
    } else {
        calls_of(bs, (n - 1) as nat) + match bs[n - 1] {
            BlockModel::ToolUse { id, name, input, .. } => seq![CallModel { id, name, arguments: input }],
            _ => Seq::empty(),
        }
    }
}

/// The tool results among the first `n` blocks, each as a message of its own.
pub open spec fn results_of(bs: Seq<BlockModel>, n: nat) -> Seq<OpenAiMessageModel>
    decreases n,
{
    if n == 0 {
        Seq::empty()
    } else {
        results_of(bs, (n - 1) as nat) + match bs[n - 1] {
            BlockModel::ToolResult { tool_use_id, content, .. } => seq![
                OpenAiMessageModel::Tool { tool_call_id: tool_use_id, content },
            ],
            _ => Seq::empty(),
        }
    }
}

/// The body messages for one conversation message: its text and tool calls as one message
/// (when it has any), then one message per tool result. Reasoning traces are not sent.
pub open spec fn messages_for(role: Seq<char>, bs: Seq<BlockModel>) -> Seq<OpenAiMessageModel> {
    let n = bs.len();
    let head = if has_text(bs, n) || calls_of(bs, n).len() > 0 {
        seq![OpenAiMessageModel::Chat {
            role,
            content: if has_text(bs, n) { Some(joined_text(bs, n)) } else { None },
            tool_calls: calls_of(bs, n),
        }]
    } else {
        Seq::empty()
    };
    head + results_of(bs, n)
}

pub open spec fn role_text(role: LlmRole) -> Seq<char> {
    match role {
        LlmRole::User => "user"@,
        LlmRole::Assistant => "assistant"@,
    }
}

/// The body messages for the first `n` conversation messages.
pub open spec fn conversation_messages(ms: Seq<LlmMessage>, n: nat) -> Seq<OpenAiMessageModel>
    decreases n,
{
    if n == 0 {
        Seq::empty()
    } else {
        conversation_messages(ms, (n - 1) as nat) + messages_for(role_text(ms[n - 1].role), ms[n - 1].content.deep_view())
    }
}

/// All body messages: the system prompt first, when there is one.
pub open spec fn body_messages(system: Option<Seq<char>>, ms: Seq<LlmMessage>) -> Seq<OpenAiMessageModel> {
    let head = match system {
        Some(s) => seq![OpenAiMessageModel::System { content: s }],
        None => Seq::empty(),
    };
    head + conversation_messages(ms, ms.len())
}

fn messages_of(role: &LlmRole, blocks: &Vec<ContentBlock>, out: &mut Vec<OpenAiMessage>)
    ensures
        final(out).deep_view() == old(out).deep_view() + messages_for(role_text(*role), blocks.deep_view()),
{
    let ghost bs = blocks.deep_view();
    let mut text = String::new();
    let mut any_text = false;
    let mut calls: Vec<OpenAiToolCall> = Vec::new();
    let mut results: Vec<OpenAiMessage> = Vec::new();
    let mut i: usize = 0;
    while i < blocks.len()
        invariant
            bs == blocks.deep_view(),
            i <= blocks.len(),
            any_text == has_text(bs, i as nat),
            text@ == joined_text(bs, i as nat),
            calls.deep_view() == calls_of(bs, i as nat),
            results.deep_view() == results_of(bs, i as nat),
        decreases blocks.len() - i,
    {
        assert(bs[i as int] == blocks@[i as int].deep_view());
        let ghost calls0 = calls.deep_view();
        let ghost results0 = results.deep_view();
        match &blocks[i] {
            ContentBlock::Text { text: t } => {
                text.append(t.as_str());
                any_text = true;
            },
            ContentBlock::ToolUse { id, name, input, .. } => {
                calls.push(OpenAiToolCall { id: id.clone(), name: name.clone(), arguments: input.clone() });
            },
            ContentBlock::ToolResult { tool_use_id, content, .. } => {
                results.push(OpenAiMessage::Tool { tool_call_id: tool_use_id.clone(), content: content.clone() });
            },
            ContentBlock::Thinking { .. } => {},
        }
        assert(calls.deep_view() =~= calls_of(bs, i as nat + 1));
        assert(results.deep_view() =~= results_of(bs, i as nat + 1));
        assert(text@ =~= joined_text(bs, i as nat + 1));
        i = i + 1;
    }
    assert(bs.len() == blocks.len());
    let ghost before = out.deep_view();
    if any_text || calls.len() > 0 {
        let content = if any_text { Some(text) } else { None };
        out.push(OpenAiMessage::Chat { role: String::from_str(role_to_str(role)), content, tool_calls: calls });
    }
    let ghost mid = out@;
    let ghost rs = results@;
    out.append(&mut results);
    assert(out@ == mid + rs);
    assert(out.deep_view() =~= mid.map_values(|m: OpenAiMessage| m.deep_view()) + rs.map_values(|m: OpenAiMessage| m.deep_view()));
}

/// Builds the request body for `model` from a request.
pub fn build_body(model: &str, request: &LlmRequest, stream: bool) -> (b: OpenAiBody)
    ensures
        b.model@ == model@,
        b.max_tokens == request.max_tokens,
        b.stream == stream,
        b.messages.deep_view() == body_messages(request.system.deep_view(), request.messages@),
        match b.tools {
            Some(t) => offered_tools(request.tools@) == Some(t@),
            None => offered_tools(request.tools@) is None,
        },
{
    let mut messages: Vec<OpenAiMessage> = Vec::new();
    match &request.system {
        Some(s) => {
            messages.push(OpenAiMessage::System { content: s.clone() });
        },
        None => {},
    }
    let ghost head = messages.deep_view();
    assert(head =~= match request.system.deep_view() {
        Some(s) => seq![OpenAiMessageModel::System { content: s }],
        None => Seq::<OpenAiMessageModel>::empty(),
    });
    let mut i: usize = 0;
    while i < request.messages.len()
        invariant
            i <= request.messages.len(),
            messages.deep_view() == head + conversation_messages(request.messages@, i as nat),
        decreases request.messages.len() - i,
    {
        let m = &request.messages[i];
        messages_of(&m.role, &m.content, &mut messages);
        assert(head + conversation_messages(request.messages@, i as nat + 1) =~= head
            + conversation_messages(request.messages@, i as nat) + messages_for(role_text(m.role), m.content.deep_view()));
        i = i + 1;
    }
    OpenAiBody { model: String::from_str(model), max_tokens: request.max_tokens, messages, tools: offered(&request.tools), stream }
}


// ------------------------------------------------------------------------------------------
// Streamed reply

/// One entry of a chunk's `choices[0].delta.tool_calls`.
#[derive(Debug, Clone)]
pub struct OpenAiToolCallDelta {
    pub index: Option<u64>,
    pub id: Option<String>,
    /// `function.name`
    pub name: Option<String>,
    /// `function.arguments`
    pub arguments: Option<String>,
}

/// What the decoder reads of a chunk's first choice.
#[derive(Debug, Clone)]
pub struct OpenAiChoice {
    /// `delta.content`
    pub content: Option<String>,
    /// `delta.tool_calls`, when it is an array
    pub tool_calls: Option<Vec<OpenAiToolCallDelta>>,
    pub finish_reason: Option<String>,
}

/// A chunk's `usage` object, when present and not null.
#[derive(Debug, Clone)]
pub struct OpenAiUsage {
    pub prompt_tokens: Option<u64>,
    pub completion_tokens: Option<u64>,
}

#[derive(Debug, Clone)]
pub struct OpenAiChunk {
    pub usage: Option<OpenAiUsage>,
    /// The first entry of `choices`, when there is one.
    pub choice: Option<OpenAiChoice>,
}

impl OpenAiChunk {
    /// A chunk as it arrives: its `usage` (absent, `null`, or counts) and all of its
    /// `choices`. A `null` usage counts as none, and only the first choice is read.
    pub fn new(usage: Option<Option<OpenAiUsage>>, choices: Vec<OpenAiChoice>) -> (c: OpenAiChunk)
        ensures
            c.usage == (match usage {
                Some(Some(u)) => Some(u),
                _ => None,
            }),
            c.choice == (if choices@.len() > 0 { Some(choices@[0]) } else { None }),
    {
        let usage = match usage {
            Some(Some(u)) => Some(u),
            _ => None,
        };
        let mut choices = choices;
        let choice = if choices.len() > 0 { Some(choices.remove(0)) } else { None };
        OpenAiChunk { usage, choice }
    }
}

/// One server-sent event: its raw data, and that data read as a chunk (or the parser's message).
#[derive(Debug)]
pub struct OpenAiFrame {
    pub data: String,
    pub chunk: Result<OpenAiChunk, String>,
}

/// What the decoder has seen so far: the next free block index, the text block's index once one
/// is open, block indices of tool calls by their own index, the blocks still open, the last
/// finish reason and the usage figures.
#[verifier::ext_equal]
pub struct OpenAiState {
    pub next_index: usize,
    pub text_index: Option<usize>,
    pub tool_map: Map<u64, usize>,
    pub open: Seq<usize>,
    pub stop: StopModel,
    pub input_tokens: u32,
    pub output_tokens: u32,
}

pub open spec fn openai_initial() -> OpenAiState {
    OpenAiState {
        next_index: 0,
        text_index: None,
        tool_map: Map::empty(),
        open: Seq::empty(),
        stop: StopModel::Other("unknown"@),
        input_tokens: 0,
        output_tokens: 0,
    }
}

pub open spec fn openai_stop_reason(r: Seq<char>) -> StopModel {
    if r == "stop"@ {
        StopModel::EndTurn
    } else if r == "tool_calls"@ {
        StopModel::ToolUse
    } else if r == "length"@ {
        StopModel::MaxTokens
    } else {
        StopModel::Other(r)
    }
}

/// One tool-call fragment: a tool index not seen before opens a new block.
pub open spec fn tool_call_step(st: OpenAiState, tc: OpenAiToolCallDelta) -> (OpenAiState, Seq<EventModel>) {
    let raw: u64 = match tc.index {
        Some(v) => v,
        None => 0,
    };
    let (st1, idx, start) = if st.tool_map.contains_key(raw) {
        (st, st.tool_map[raw], Seq::<EventModel>::empty())
    } else {
        let idx = st.next_index;
        (
            OpenAiState {
                next_index: (idx + 1) as usize,
                text_index: st.text_index,
                tool_map: st.tool_map.insert(raw, idx),
                open: st.open.push(idx),
                stop: st.stop,
                input_tokens: st.input_tokens,
                output_tokens: st.output_tokens,
            },
            idx,
            seq![EventModel::ContentBlockStart {
                index: idx,
                block: PartialModel::ToolUse {
                    id: or_empty_spec(opt_view(tc.id)),
                    name: or_empty_spec(opt_view(tc.name)),
                    thought_signature: None,
                },
            }],
        )
    };
    let args = match tc.arguments {
        Some(a) => seq![EventModel::ToolInputDelta { index: idx, partial_json: a@ }],
        None => Seq::empty(),
    };
    (st1, start + args)
}

/// The first `n` tool-call fragments of a chunk, in order.
pub open spec fn tool_calls_fold(st: OpenAiState, calls: Seq<OpenAiToolCallDelta>, n: nat) -> (OpenAiState, Seq<EventModel>)
    decreases n,
{
    if n == 0 {
        (st, Seq::empty())
    } else {
        let (s1, e1) = tool_calls_fold(st, calls, (n - 1) as nat);
        let (s2, e2) = tool_call_step(s1, calls[n - 1]);
        (s2, e1 + e2)
    }
}

pub open spec fn text_part(st: OpenAiState, content: Option<String>) -> (OpenAiState, Seq<EventModel>) {
    match content {
        None => (st, Seq::empty()),
        Some(t) => match st.text_index {
            Some(i) => (st, seq![EventModel::TextDelta { index: i, text: t@ }]),
            None => {
                let idx = st.next_index;
                (
                    OpenAiState {
                        next_index: (idx + 1) as usize,
                        text_index: Some(idx),
                        tool_map: st.tool_map,
                        open: st.open.push(idx),
                        stop: st.stop,
                        input_tokens: st.input_tokens,
                        output_tokens: st.output_tokens,
                    },
                    seq![
                        EventModel::ContentBlockStart { index: idx, block: PartialModel::Text },
                        EventModel::TextDelta { index: idx, text: t@ },
                    ],
                )
            },
        },
    }
}

/// A finish reason records the stop reason and closes every open block, in the order opened.
pub open spec fn finish_part(st: OpenAiState, reason: Option<String>) -> (OpenAiState, Seq<EventModel>) {
    match reason {
        None => (st, Seq::empty()),
        Some(r) => (
            OpenAiState {
                next_index: st.next_index,
                text_index: st.text_index,
                tool_map: st.tool_map,
                open: Seq::empty(),
                stop: openai_stop_reason(r@),
                input_tokens: st.input_tokens,
                output_tokens: st.output_tokens,
            },
            st.open.map_values(|i: usize| EventModel::ContentBlockDone { index: i }),
        ),
    }
}

/// One frame of a Chat Completions stream. `[DONE]` completes the reply with the last finish
/// reason and usage seen; a usage object updates the figures; the first choice's text, tool-call
/// fragments and finish reason are handled in that order.
pub open spec fn openai_step(st: OpenAiState, f: OpenAiFrame) -> (OpenAiState, StepModel) {
    if f.data@ == "[DONE]"@ {
        (st, finish_with(seq![EventModel::Done { stop_reason: st.stop, input_tokens: st.input_tokens, output_tokens: st.output_tokens }]))
    } else {
        match f.chunk {
            Err(m) => (st, fail_with(ErrorModel::ParseError("invalid stream chunk json: "@ + m@))),
            Ok(c) => {
                let st1 = match c.usage {
                    Some(u) => OpenAiState {
                        next_index: st.next_index,
                        text_index: st.text_index,
                        tool_map: st.tool_map,
                        open: st.open,
                        stop: st.stop,
                        input_tokens: count_u32(u.prompt_tokens),
                        output_tokens: count_u32(u.completion_tokens),
                    },
                    None => st,
                };
                match c.choice {
                    None => (st1, go_on(Seq::empty())),
                    Some(ch) => {
                        let (st2, e1) = text_part(st1, ch.content);
                        let (st3, e2) = match ch.tool_calls {
                            Some(calls) => tool_calls_fold(st2, calls@, calls.len() as nat),
                            None => (st2, Seq::empty()),
                        };
                        let (st4, e3) = finish_part(st3, ch.finish_reason);
                        (st4, go_on(e1 + e2 + e3))
                    },
                }
            },
        }
    }
}

/// The most block indices one frame can open.
pub open spec fn frame_openings(f: OpenAiFrame) -> nat {
    match f.chunk {
        Ok(c) => match c.choice {
            Some(ch) => 1 + match ch.tool_calls {
                Some(calls) => calls.len() as nat,
                None => 0,
            },
            None => 0,
        },
        Err(_) => 0,
    }
}

/// Decodes a Chat Completions event stream frame by frame (see `openai_step`).
pub struct OpenAiDecoder {
    next_index: usize,
    text_index: Option<usize>,
    tool_map: BTreeMap<u64, usize>,
    open: Vec<usize>,
    stop: StopReason,
    input_tokens: u32,
    output_tokens: u32,
}

impl OpenAiDecoder {
    pub closed spec fn state(&self) -> OpenAiState {
        OpenAiState {
            next_index: self.next_index,
            text_index: self.text_index,
            tool_map: self.tool_map@,
            open: self.open@,
            stop: self.stop.deep_view(),
            input_tokens: self.input_tokens,
            output_tokens: self.output_tokens,
        }
    }

    pub fn new() -> (d: OpenAiDecoder)
        ensures
            d.state() == openai_initial(),
    {
        OpenAiDecoder {
            next_index: 0,
            text_index: None,
            tool_map: BTreeMap::new(),
            open: Vec::new(),
            stop: crate::llm::sse::other_reason("unknown"),
            input_tokens: 0,
            output_tokens: 0,
        }
    }

    /// Whether the block indices still free suffice for `f`.
    pub fn has_room(&self, f: &OpenAiFrame) -> (r: bool)
        ensures
            r == (self.state().next_index + frame_openings(*f) <= usize::MAX),
    {
        let needed: usize = match &f.chunk {
            Ok(c) => match &c.choice {
                Some(ch) => match &ch.tool_calls {
                    Some(calls) => if calls.len() < usize::MAX { calls.len() + 1 } else { usize::MAX },
                    None => 1,
                },
                None => 0,
            },
            Err(_) => 0,
        };
        if needed == usize::MAX {
            match &f.chunk {
                Ok(c) => match &c.choice {
                    Some(ch) => match &ch.tool_calls {
                        Some(calls) => {
                            if calls.len() == usize::MAX {
                                return false;
                            }
                        },
                        None => {},
                    },
                    None => {},
                },
                Err(_) => {},
            }
        }
        self.next_index <= usize::MAX - needed
    }

    fn text_step(&mut self, content: Option<String>, events: &mut Vec<StreamEvent>)
        requires
            old(self).next_index < usize::MAX,
        ensures
            final(self).state() == text_part(old(self).state(), content).0,
            final(events).deep_view() == old(events).deep_view() + text_part(old(self).state(), content).1,
            final(self).next_index <= old(self).next_index + 1,
    {
        let ghost ev0 = events.deep_view();
        match content {
            None => {
                assert(events.deep_view() =~= ev0 + Seq::<EventModel>::empty());
            },
            Some(t) => {
                match self.text_index {
                    Some(i) => {
                        events.push(StreamEvent::TextDelta { index: i, text: t });
                        assert(events.deep_view() =~= ev0 + text_part(old(self).state(), Some(t)).1);
                    },
                    None => {
                        let idx = self.next_index;
                        self.next_index = idx + 1;
                        self.text_index = Some(idx);
                        self.open.push(idx);
                        events.push(StreamEvent::ContentBlockStart { index: idx, block: PartialBlock::Text });
                        events.push(StreamEvent::TextDelta { index: idx, text: t });
                        assert(events.deep_view() =~= ev0 + text_part(old(self).state(), Some(t)).1);
                    },
                }
            },
        }
    }

    fn tool_call(&mut self, tc: OpenAiToolCallDelta, events: &mut Vec<StreamEvent>)
        requires
            old(self).next_index < usize::MAX,
        ensures
            final(self).state() == tool_call_step(old(self).state(), tc).0,
            final(events).deep_view() == old(events).deep_view() + tool_call_step(old(self).state(), tc).1,
            final(self).next_index <= old(self).next_index + 1,
    {
        let ghost ev0 = events.deep_view();
        let ghost tc0 = tc;
        let raw: u64 = match tc.index {
            Some(v) => v,
            None => 0,
        };
        let known: Option<usize> = match self.tool_map.get(&raw) {
            Some(i) => Some(*i),
            None => None,
        };
        let idx = match known {
            Some(i) => i,
            None => {
                let idx = self.next_index;
                self.next_index = idx + 1;
                self.tool_map.insert(raw, idx);
                self.open.push(idx);
                events.push(StreamEvent::ContentBlockStart {
                    index: idx,
                    block: PartialBlock::ToolUse { id: or_empty(tc.id), name: or_empty(tc.name), thought_signature: None },
                });
                idx
            },
        };
        match tc.arguments {
            Some(a) => {
                events.push(StreamEvent::ToolInputDelta { index: idx, partial_json: a });
            },
            None => {},
        }
        assert(events.deep_view() =~= ev0 + tool_call_step(old(self).state(), tc0).1);
    }

    fn tool_calls(&mut self, calls: Vec<OpenAiToolCallDelta>, events: &mut Vec<StreamEvent>)
        requires
            old(self).next_index + calls.len() <= usize::MAX,
        ensures
            final(self).state() == tool_calls_fold(old(self).state(), calls@, calls.len() as nat).0,
            final(events).deep_view() == old(events).deep_view() + tool_calls_fold(old(self).state(), calls@, calls.len() as nat).1,
    {
        let ghost st0 = self.state();
        let ghost ev0 = events.deep_view();
        let mut i: usize = 0;
        while i < calls.len()
            invariant
                i <= calls.len(),
                self.next_index <= st0.next_index + i,
                st0.next_index + calls.len() <= usize::MAX,
                self.state() == tool_calls_fold(st0, calls@, i as nat).0,
                events.deep_view() == ev0 + tool_calls_fold(st0, calls@, i as nat).1,
            decreases calls.len() - i,
        {
            let ghost before = events.deep_view();
            let ghost sprev = tool_calls_fold(st0, calls@, i as nat);
            assert(self.state() =~= sprev.0);
            self.tool_call(calls[i].clone_delta(), events);
            assert(events.deep_view() =~= ev0 + tool_calls_fold(st0, calls@, i as nat + 1).1);
            i = i + 1;
        }
    }

    /// Applies one frame (see `openai_step`).
    pub fn step(&mut self, f: OpenAiFrame) -> (o: StepOutput)
        requires
            old(self).state().next_index + frame_openings(f) <= usize::MAX,
        ensures
            final(self).state() == openai_step(old(self).state(), f).0,
            o.deep_view() == openai_step(old(self).state(), f).1,
    {
        if str_eq(f.data.as_str(), "[DONE]") {
            let mut v: Vec<StreamEvent> = Vec::new();
            v.push(StreamEvent::Done {
                stop_reason: crate::llm::stream::clone_stop_reason(&self.stop),
                input_tokens: self.input_tokens,
                output_tokens: self.output_tokens,
            });
            assert(v.deep_view() =~= seq![v@[0].deep_view()]);
            return StepOutput { events: v, end: StepEnd::Finished };
        }
        match f.chunk {
            Err(m) => fail(LlmError::ParseError(join2("invalid stream chunk json: ", m.as_str()))),
            Ok(c) => {
                match c.usage {
                    Some(u) => {
                        self.input_tokens = match u.prompt_tokens { Some(v) => (#[verifier::truncate] (v as u32)), None => 0 };
                        self.output_tokens = match u.completion_tokens { Some(v) => (#[verifier::truncate] (v as u32)), None => 0 };
                    },
                    None => {},
                }
                match c.choice {
                    None => crate::llm::sse::nothing(),
                    Some(ch) => {
                        let mut events: Vec<StreamEvent> = Vec::new();
                        let ghost st1 = self.state();
                        self.text_step(ch.content, &mut events);
                        let ghost st2 = text_part(st1, ch.content).0;
                        let ghost e1 = text_part(st1, ch.content).1;
                        match ch.tool_calls {
                            Some(calls) => {
                                self.tool_calls(calls, &mut events);
                            },
                            None => {},
                        }
                        let ghost mid = events.deep_view();
                        match ch.finish_reason {
                            Some(r) => {
                                let ghost opened = self.open@;
                                self.stop = match () {
                                    _ => {
                                        if str_eq(r.as_str(), "stop") {
                                            StopReason::EndTurn
                                        } else if str_eq(r.as_str(), "tool_calls") {
                                            StopReason::ToolUse
                                        } else if str_eq(r.as_str(), "length") {
                                            StopReason::MaxTokens
                                        } else {
                                            StopReason::Other(r)
                                        }
                                    },
                                };
                                let mut j: usize = 0;
                                while j < self.open.len()
                                    invariant
                                        j <= self.open.len(),
                                        opened == self.open@,
                                        events.deep_view() =~= mid + opened.take(j as int).map_values(|i: usize| EventModel::ContentBlockDone { index: i }),
                                    decreases self.open.len() - j,
                                {
                                    let ghost b = events.deep_view();
                                    events.push(StreamEvent::ContentBlockDone { index: self.open[j] });
                                    assert(events.deep_view() =~= b.push(EventModel::ContentBlockDone { index: opened[j as int] }));
                                    assert(opened.take(j as int + 1) =~= opened.take(j as int).push(opened[j as int]));
                                    j = j + 1;
                                }
                                assert(opened.take(opened.len() as int) =~= opened);
                                self.open = Vec::new();
                            },
                            None => {},
                        }
                        assert(events.deep_view() =~= e1 + (mid.skip(e1.len() as int)) + (events.deep_view().skip(mid.len() as int)));
                        go_with(events)
                    },
                }
            },
        }
    }
}

fn go_with(events: Vec<StreamEvent>) -> (o: StepOutput)
    ensures
        o.deep_view() == go_on(events.deep_view()),
{
    crate::llm::sse::go_on_with(events)
}

impl OpenAiToolCallDelta {
    fn clone_delta(&self) -> (r: OpenAiToolCallDelta)
        ensures
            r == *self,
    {
        OpenAiToolCallDelta {
            index: self.index,
            id: clone_opt_string(&self.id),
            name: clone_opt_string(&self.name),
            arguments: clone_opt_string(&self.arguments),
        }
    }
}

} // verus!

verus! {

/// Tool indices are filed under distinct blocks, all of them already opened (below `next`).
pub open spec fn files_tools_apart(tool_map: Map<u64, usize>, next: usize) -> bool {
    &&& forall|k: u64| #[trigger] tool_map.contains_key(k) ==> tool_map[k] < next
    &&& forall|k1: u64, k2: u64|
        #![trigger tool_map[k1], tool_map[k2]]
        tool_map.contains_key(k1) && tool_map.contains_key(k2) && k1 != k2 ==> tool_map[k1] != tool_map[k2]
}

/// A tool-call fragment goes to the block of its own tool index (0 when it names none): a tool
/// index seen before continues that index's block, one not seen before opens a new block at
/// the next free index, carrying the fragment's id and function name. Every event the fragment
/// yields belongs to that block, blocks already filed keep their index, and different tool
/// indices stay in different blocks.
pub proof fn lemma_tool_fragment_follows_its_index(st: OpenAiState, tc: OpenAiToolCallDelta)
    requires
        files_tools_apart(st.tool_map, st.next_index),
        st.next_index < usize::MAX,
    ensures
        ({
            let k: u64 = match tc.index {
                Some(v) => v,
                None => 0,
            };
            let (s2, evs) = tool_call_step(st, tc);
            &&& s2.tool_map.contains_key(k)
            &&& files_tools_apart(s2.tool_map, s2.next_index)
            &&& forall|j: u64| #[trigger] st.tool_map.contains_key(j) ==> s2.tool_map.contains_key(j) && s2.tool_map[j] == st.tool_map[j]
            &&& forall|i: int| 0 <= i < evs.len() ==> event_block(#[trigger] evs[i]) == Some(s2.tool_map[k])
            &&& st.tool_map.contains_key(k) ==> s2.next_index == st.next_index
            &&& !st.tool_map.contains_key(k) ==> {
                &&& s2.tool_map[k] == st.next_index
                &&& s2.next_index == st.next_index + 1
                &&& evs.len() > 0
                &&& evs[0] == EventModel::ContentBlockStart {
                    index: st.next_index,
                    block: PartialModel::ToolUse {
                        id: match tc.id {
                            Some(s) => s@,
                            None => Seq::<char>::empty(),
                        },
                        name: match tc.name {
                            Some(s) => s@,
                            None => Seq::<char>::empty(),
                        },
                        thought_signature: None,
                    },
                }
            }
        }),
{
}

/// Two fragments with different tool indices, one after the other, land in different blocks,
/// and the first one's block is not disturbed by the second.
pub proof fn lemma_distinct_tool_indices_open_distinct_blocks(
    st: OpenAiState,
    a: OpenAiToolCallDelta,
    b: OpenAiToolCallDelta,
)
    requires
        files_tools_apart(st.tool_map, st.next_index),
        st.next_index + 2 <= usize::MAX,
        (match a.index {
            Some(v) => v,
            None => 0u64,
        }) != (match b.index {
            Some(v) => v,
            None => 0u64,
        }),
    ensures
        ({
            let ka: u64 = match a.index {
                Some(v) => v,
                None => 0,
            };
            let kb: u64 = match b.index {
                Some(v) => v,
                None => 0,
            };
            let (s1, ea) = tool_call_step(st, a);
            let (s2, eb) = tool_call_step(s1, b);
            &&& s2.tool_map[ka] != s2.tool_map[kb]
            &&& forall|i: int| 0 <= i < ea.len() ==> event_block(#[trigger] ea[i]) == Some(s2.tool_map[ka])
            &&& forall|i: int| 0 <= i < eb.len() ==> event_block(#[trigger] eb[i]) == Some(s2.tool_map[kb])
        }),
{
    lemma_tool_fragment_follows_its_index(st, a);
    let (s1, ea) = tool_call_step(st, a);
    lemma_tool_fragment_follows_its_index(s1, b);
}

} // verus!

verus! {

/// How many of the first `i` blocks are tool calls.
pub open spec fn tool_uses_before(bs: Seq<BlockModel>, i: nat) -> nat
    decreases i,
{
    if i == 0 {
        0
    } else {
        tool_uses_before(bs, (i - 1) as nat) + if bs[i - 1] is ToolUse { 1nat } else { 0nat }
    }
}

proof fn lemma_calls_in_order(bs: Seq<BlockModel>, n: nat)
    requires
        n <= bs.len(),
    ensures
        calls_of(bs, n).len() == tool_uses_before(bs, n),
        forall|i: int|
            0 <= i < n ==> (#[trigger] bs[i] matches BlockModel::ToolUse { id, name, input, .. } ==> calls_of(bs, n)[
                tool_uses_before(bs, i as nat) as int
            ] == (CallModel { id, name, arguments: input })),
    decreases n,
{
    if n > 0 {
        lemma_calls_in_order(bs, (n - 1) as nat);
        let prev = calls_of(bs, (n - 1) as nat);
        assert forall|i: int|
            0 <= i < n implies (#[trigger] bs[i] matches BlockModel::ToolUse { id, name, input, .. } ==> calls_of(bs, n)[
                tool_uses_before(bs, i as nat) as int
            ] == (CallModel { id, name, arguments: input })) by {
            if i < n - 1 && bs[i] is ToolUse {
                lemma_tool_uses_grow(bs, (i + 1) as nat, (n - 1) as nat);
                assert(calls_of(bs, n)[tool_uses_before(bs, i as nat) as int] == prev[tool_uses_before(bs, i as nat) as int]);
            }
        }
    }
}

proof fn lemma_tool_uses_grow(bs: Seq<BlockModel>, i: nat, n: nat)
    requires
        i <= n,
    ensures
        tool_uses_before(bs, i) <= tool_uses_before(bs, n),
    decreases n,
{
    if n > i {
        lemma_tool_uses_grow(bs, i, (n - 1) as nat);
    }
}

/// A message's tool calls are replayed, in block order, as the tool calls of the one chat
/// message it opens with: the k-th tool-call block becomes the k-th call, with that block's
/// id, function name and input as arguments.
pub proof fn lemma_tool_uses_replayed_as_calls(role: Seq<char>, bs: Seq<BlockModel>)
    requires
        tool_uses_before(bs, bs.len()) > 0,
    ensures
        messages_for(role, bs)[0] matches OpenAiMessageModel::Chat { role: r, tool_calls, .. } && {
            &&& r == role
            &&& tool_calls.len() == tool_uses_before(bs, bs.len())
            &&& forall|i: int|
                0 <= i < bs.len() ==> (#[trigger] bs[i] matches BlockModel::ToolUse { id, name, input, .. }
                    ==> tool_calls[tool_uses_before(bs, i as nat) as int] == (CallModel { id, name, arguments: input }))
        },
{
    lemma_calls_in_order(bs, bs.len());
}

} // verus!

verus! {

/// The text of a reply goes into one block: the first text fragment opens it at the next free
/// index, every later one continues it, and each fragment is carried as it stands.
pub proof fn lemma_text_goes_to_one_block(st: OpenAiState, content: Option<String>)
    requires
        st.next_index < usize::MAX,
    ensures
        ({
            let (s2, evs) = text_part(st, content);
            &&& st.text_index matches Some(i) ==> s2.text_index == Some(i) && s2.next_index == st.next_index
            &&& content matches Some(t) ==> {
                let i = match st.text_index {
                    Some(i) => i,
                    None => st.next_index,
                };
                &&& s2.text_index == Some(i)
                &&& evs.last() == EventModel::TextDelta { index: i, text: t@ }
                &&& forall|j: int| 0 <= j < evs.len() ==> event_block(#[trigger] evs[j]) == Some(i)
                &&& st.text_index is None ==> s2.next_index == st.next_index + 1 && evs[0] == (EventModel::ContentBlockStart {
                    index: st.next_index,
                    block: PartialModel::Text,
                })
            }
            &&& content is None ==> s2 == st && evs.len() == 0
        }),
{
}

} // verus!

verus! {

proof fn lemma_fold_keeps_tools_apart(st: OpenAiState, calls: Seq<OpenAiToolCallDelta>, n: nat)
    requires
        n <= calls.len(),
        files_tools_apart(st.tool_map, st.next_index),
        st.next_index + n <= usize::MAX,
    ensures
        ({
            let s = tool_calls_fold(st, calls, n).0;
            &&& files_tools_apart(s.tool_map, s.next_index)
            &&& st.next_index <= s.next_index <= st.next_index + n
            &&& forall|j: u64| #[trigger] st.tool_map.contains_key(j) ==> s.tool_map.contains_key(j) && s.tool_map[j] == st.tool_map[j]
        }),
    decreases n,
{
    if n > 0 {
        lemma_fold_keeps_tools_apart(st, calls, (n - 1) as nat);
        let s1 = tool_calls_fold(st, calls, (n - 1) as nat).0;
        lemma_tool_fragment_follows_its_index(s1, calls[n - 1]);
    }
}

/// Every state a stream reaches from the start keeps different tool indices in different
/// blocks: the decoder starts that way, and each frame keeps it so and keeps every tool index
/// in the block it was first filed under.
pub proof fn lemma_stream_keeps_tools_apart(st: OpenAiState, f: OpenAiFrame)
    requires
        files_tools_apart(st.tool_map, st.next_index),
        st.next_index + frame_openings(f) <= usize::MAX,
    ensures
        files_tools_apart(openai_initial().tool_map, openai_initial().next_index),
        files_tools_apart(openai_step(st, f).0.tool_map, openai_step(st, f).0.next_index),
        forall|j: u64| #[trigger] st.tool_map.contains_key(j) ==> openai_step(st, f).0.tool_map.contains_key(j)
            && openai_step(st, f).0.tool_map[j] == st.tool_map[j],
{
    match f.chunk {
        Ok(c) => match c.choice {
            Some(ch) => {
                let st1 = match c.usage {
                    Some(u) => OpenAiState {
                        next_index: st.next_index,
                        text_index: st.text_index,
                        tool_map: st.tool_map,
                        open: st.open,
                        stop: st.stop,
                        input_tokens: count_u32(u.prompt_tokens),
                        output_tokens: count_u32(u.completion_tokens),
                    },
                    None => st,
                };
                let st2 = text_part(st1, ch.content).0;
                assert(files_tools_apart(st2.tool_map, st2.next_index));
                match ch.tool_calls {
                    Some(calls) => lemma_fold_keeps_tools_apart(st2, calls@, calls.len() as nat),
                    None => {},
                }
            },
            None => {},
        },
        Err(_) => {},
    }
}

} // verus!
