use vstd::prelude::*;

use crate::llm::anthropic::{count_u32, opt_view};
use crate::llm::sse::{fail, fail_with, go_on, go_on_with, nothing, StepModel, StepOutput};
use crate::llm::stream::{clone_opt_string, offered, offered_tools};
use crate::llm::types::{event_block, lemma_opened_blocks_append, opened_blocks, 
    BlockModel, ContentBlock, ErrorModel, EventModel, LlmError, LlmRequest, LlmRole, PartialBlock,
    PartialModel, StopModel, StopReason, StreamEvent, ToolDefinition,
};
use crate::text::{join2, or_empty, or_empty_spec, str_eq};

verus! {

/// How the Gemini API names a role.
pub fn role_to_str(role: &LlmRole) -> (r: &'static str)
    ensures
        r@ == match role {
            LlmRole::User => "user"@,
            LlmRole::Assistant => "model"@,
        },
{
    match role {
        LlmRole::User => "user",
        LlmRole::Assistant => "model",
    }
}

/// Where the Gemini API lives unless configured otherwise.
pub fn default_base_url() -> (r: String)
    ensures
        r@ == "https://generativelanguage.googleapis.com"@,
{
    String::from_str("https://generativelanguage.googleapis.com")
}

// ------------------------------------------------------------------------------------------
// Request body

/// One part of a Gemini request content. A function call carries its JSON argument text and,
/// for "thinking" models, the signature that must be echoed back verbatim.
#[derive(Debug)]
pub enum GeminiPart {
    Text { text: String },
    FunctionCall { name: String, args: String, thought_signature: Option<String> },
    FunctionResponse { name: String, content: String },
}

pub enum PartModel {
    Text { text: Seq<char> },
    FunctionCall { name: Seq<char>, args: Seq<char>, thought_signature: Option<Seq<char>> },
    FunctionResponse { name: Seq<char>, content: Seq<char> },
}

impl DeepView for GeminiPart {
    type V = PartModel;

    open spec fn deep_view(&self) -> PartModel {
        match self {
            GeminiPart::Text { text } => PartModel::Text { text: text@ },
            GeminiPart::FunctionCall { name, args, thought_signature } => PartModel::FunctionCall {
                name: name@,
                args: args@,
                thought_signature: thought_signature.deep_view(),
            },
            GeminiPart::FunctionResponse { name, content } => PartModel::FunctionResponse { name: name@, content: content@ },
        }
    }
}

#[derive(Debug)]
pub struct GeminiContent {
    pub role: String,
    pub parts: Vec<GeminiPart>,
}

/// A `streamGenerateContent` request body. `tools` is absent when the request offers none.
#[derive(Debug)]
pub struct GeminiBody {
    pub contents: Vec<GeminiContent>,
    pub system_instruction: Option<String>,
    pub tools: Option<Vec<ToolDefinition>>,
    pub max_output_tokens: u32,
}

/// The part a block is sent as. A tool result answers the call by the call's id (Gemini names
/// the function there); a reasoning trace is not sent back.
pub open spec fn part_for(b: BlockModel) -> Option<PartModel> {
    match b {
        BlockModel::Text { text } => Some(PartModel::Text { text }),
        BlockModel::ToolUse { name, input, thought_signature, .. } => Some(PartModel::FunctionCall {
            name,
            args: input,
            thought_signature,
        }),
        BlockModel::ToolResult { tool_use_id, content, .. } => Some(PartModel::FunctionResponse {
            name: tool_use_id,
            content,
        }),
        BlockModel::Thinking { .. } => None,
    }
}

/// The parts for the first `n` blocks.
pub open spec fn parts_for(bs: Seq<BlockModel>, n: nat) -> Seq<PartModel>
    decreases n,
{
    if n == 0 {
        Seq::empty()
    } else {
        parts_for(bs, (n - 1) as nat) + match part_for(bs[n - 1]) {
            Some(p) => seq![p],
            None => Seq::empty(),
        }
    }
}

pub open spec fn role_text(role: LlmRole) -> Seq<char> {
    match role {
        LlmRole::User => "user"@,
        LlmRole::Assistant => "model"@,
    }
}

fn parts_of(blocks: &Vec<ContentBlock>) -> (ps: Vec<GeminiPart>)
    ensures
        ps.deep_view() == parts_for(blocks.deep_view(), blocks.len() as nat),
{
    let ghost bs = blocks.deep_view();
    let mut ps: Vec<GeminiPart> = Vec::new();
    let mut i: usize = 0;
    while i < blocks.len()
        invariant
            bs == blocks.deep_view(),
            i <= blocks.len(),
            ps.deep_view() == parts_for(bs, i as nat),
        decreases blocks.len() - i,
    {
        assert(bs[i as int] == blocks@[i as int].deep_view());
        let ghost before = ps.deep_view();
        match &blocks[i] {
            ContentBlock::Text { text } => {
                ps.push(GeminiPart::Text { text: text.clone() });
            },
            ContentBlock::ToolUse { name, input, thought_signature, .. } => {
                ps.push(GeminiPart::FunctionCall {
                    name: name.clone(),
                    args: input.clone(),
                    thought_signature: clone_opt_string(thought_signature),
                });
            },
            ContentBlock::ToolResult { tool_use_id, content, .. } => {
                ps.push(GeminiPart::FunctionResponse { name: tool_use_id.clone(), content: content.clone() });
            },
            ContentBlock::Thinking { .. } => {},
        }
        assert(ps.deep_view() =~= parts_for(bs, i as nat + 1));
        i = i + 1;
    }
    ps
}

/// Builds the request body from a request.
pub fn build_body(request: &LlmRequest) -> (b: GeminiBody)
    ensures
        b.system_instruction == request.system,
        b.max_output_tokens == request.max_tokens,
        match b.tools {
            Some(t) => offered_tools(request.tools@) == Some(t@),
            None => offered_tools(request.tools@) is None,
        },
        b.contents.len() == request.messages.len(),
        forall|i: int| 0 <= i < b.contents.len() ==> {
            &&& (#[trigger] b.contents@[i]).role@ == role_text(request.messages@[i].role)
            &&& b.contents@[i].parts.deep_view() == parts_for(
                request.messages@[i].content.deep_view(),
                request.messages@[i].content.len() as nat,
            )
        },
{
    let mut contents: Vec<GeminiContent> = Vec::new();
    let mut i: usize = 0;
    while i < request.messages.len()
        invariant
            i <= request.messages.len(),
            contents.len() == i,
            forall|j: int| 0 <= j < i ==> {
                &&& (#[trigger] contents@[j]).role@ == role_text(request.messages@[j].role)
                &&& contents@[j].parts.deep_view() == parts_for(
                    request.messages@[j].content.deep_view(),
                    request.messages@[j].content.len() as nat,
                )
            },
        decreases request.messages.len() - i,
    {
        let m = &request.messages[i];
        contents.push(GeminiContent { role: String::from_str(role_to_str(&m.role)), parts: parts_of(&m.content) });
        i = i + 1;
    }
    GeminiBody {
        contents,
        system_instruction: clone_opt_string(&request.system),
        tools: offered(&request.tools),
        max_output_tokens: request.max_tokens,
    }
}

// ------------------------------------------------------------------------------------------
// Streamed reply

/// A part's `functionCall` object: its name, and its `args` written out as JSON text (`null`
/// when absent).
#[derive(Debug, Clone)]
pub struct GeminiCall {
    pub name: Option<String>,
    pub args_json: String,
}

/// What the decoder reads of one part of a candidate's content.
#[derive(Debug, Clone)]
pub struct GeminiPartDelta {
    pub text: Option<String>,
    pub function_call: Option<GeminiCall>,
    /// `thoughtSignature`, a sibling of `functionCall` on the part
    pub thought_signature: Option<String>,
}

/// What the decoder reads of a chunk's first candidate.
#[derive(Debug, Clone)]
pub struct GeminiCandidate {
    pub finish_reason: Option<String>,
    /// `content.parts`, when it is an array
    pub parts: Option<Vec<GeminiPartDelta>>,
}

/// A chunk's `usageMetadata`.
#[derive(Debug, Clone)]
pub struct GeminiUsage {
    pub prompt_token_count: Option<u64>,
    pub candidates_token_count: Option<u64>,
}

#[derive(Debug, Clone)]
pub struct GeminiChunk {
    pub usage: Option<GeminiUsage>,
    /// The first entry of `candidates`, when there is one.
    pub candidate: Option<GeminiCandidate>,
}

impl GeminiChunk {
    /// A chunk as it arrives: its usage metadata, if any, and all of its `candidates`, of
    /// which only the first is read.
    pub fn new(usage: Option<GeminiUsage>, candidates: Vec<GeminiCandidate>) -> (c: GeminiChunk)
        ensures
            c.usage == usage,
            c.candidate == (if candidates@.len() > 0 { Some(candidates@[0]) } else { None }),
    {
        let mut candidates = candidates;
        let candidate = if candidates.len() > 0 { Some(candidates.remove(0)) } else { None };
        GeminiChunk { usage, candidate }
    }
}

/// What the decoder has seen so far.
#[verifier::ext_equal]
pub struct GeminiState {
    pub next_index: usize,
    pub text_index: Option<usize>,
    pub saw_function_call: bool,
    pub input_tokens: u32,
    pub output_tokens: u32,
    pub finish_reason: Option<Seq<char>>,
}

pub open spec fn gemini_initial() -> GeminiState {
    GeminiState {
        next_index: 0,
        text_index: None,
        saw_function_call: false,
        input_tokens: 0,
        output_tokens: 0,
        finish_reason: None,
    }
}

/// One part: text goes to the one text block (opened on first use); a function call arrives
/// whole, as a block of its own whose id is the function's name.
pub open spec fn part_step(st: GeminiState, p: GeminiPartDelta) -> (GeminiState, Seq<EventModel>) {
    match p.text {
        Some(t) => match st.text_index {
            Some(i) => (st, seq![EventModel::TextDelta { index: i, text: t@ }]),
            None => {
                let idx = st.next_index;
                (
                    GeminiState { next_index: (idx + 1) as usize, text_index: Some(idx), ..st },
                    seq![
                        EventModel::ContentBlockStart { index: idx, block: PartialModel::Text },
                        EventModel::TextDelta { index: idx, text: t@ },
                    ],
                )
            },
        },
        None => match p.function_call {
            Some(fc) => {
                let idx = st.next_index;
                let name = or_empty_spec(opt_view(fc.name));
                (
                    GeminiState { next_index: (idx + 1) as usize, saw_function_call: true, ..st },
                    seq![
                        EventModel::ContentBlockStart {
                            index: idx,
                            block: PartialModel::ToolUse { id: name, name, thought_signature: opt_view(p.thought_signature) },
                        },
                        EventModel::ToolInputDelta { index: idx, partial_json: fc.args_json@ },
                        EventModel::ContentBlockDone { index: idx },
                    ],
                )
            },
            None => (st, Seq::empty()),
        },
    }
}

pub open spec fn parts_fold(st: GeminiState, ps: Seq<GeminiPartDelta>, n: nat) -> (GeminiState, Seq<EventModel>)
    decreases n,
{
    if n == 0 {
        (st, Seq::empty())
    } else {
        let (s1, e1) = parts_fold(st, ps, (n - 1) as nat);
        let (s2, e2) = part_step(s1, ps[n - 1]);
        (s2, e1 + e2)
    }
}

/// One chunk of a Gemini stream: usage figures, the first candidate's finish reason, then its
/// parts in order.
pub open spec fn gemini_step(st: GeminiState, chunk: Result<GeminiChunk, String>) -> (GeminiState, StepModel) {
    match chunk {
        Err(m) => (st, fail_with(ErrorModel::ParseError("invalid stream chunk json: "@ + m@))),
        Ok(c) => {
            let st1 = match c.usage {
                Some(u) => GeminiState {
                    input_tokens: count_u32(u.prompt_token_count),
                    output_tokens: count_u32(u.candidates_token_count),
                    ..st
                },
                None => st,
            };
            match c.candidate {
                None => (st1, go_on(Seq::empty())),
                Some(cand) => {
                    let st2 = match cand.finish_reason {
                        Some(fr) => GeminiState { finish_reason: Some(fr@), ..st1 },
                        None => st1,
                    };
                    let (st3, evs) = match cand.parts {
                        Some(ps) => parts_fold(st2, ps@, ps.len() as nat),
                        None => (st2, Seq::empty()),
                    };
                    (st3, go_on(evs))
                },
            }
        },
    }
}

/// Why the reply stopped: a function call anywhere means tool use; otherwise the last finish
/// reason seen.
pub open spec fn gemini_stop_reason(st: GeminiState) -> StopModel {
    if st.saw_function_call {
        StopModel::ToolUse
    } else {
        match st.finish_reason {
            Some(r) => if r == "STOP"@ {
                StopModel::EndTurn
            } else if r == "MAX_TOKENS"@ {
                StopModel::MaxTokens
            } else {
                StopModel::Other(r)
            },
            None => StopModel::Other("unknown"@),
        }
    }
}

/// The events that end the stream once the server has sent everything: the text block is
/// closed, then the reply is done.
pub open spec fn gemini_finish(st: GeminiState) -> Seq<EventModel> {
    let close = match st.text_index {
        Some(i) => seq![EventModel::ContentBlockDone { index: i }],
        None => Seq::empty(),
    };
    close + seq![EventModel::Done {
        stop_reason: gemini_stop_reason(st),
        input_tokens: st.input_tokens,
        output_tokens: st.output_tokens,
    }]
}

/// The most block indices one chunk can open.
pub open spec fn chunk_openings(chunk: Result<GeminiChunk, String>) -> nat {
    match chunk {
        Ok(c) => match c.candidate {
            Some(cand) => match cand.parts {
                Some(ps) => ps.len() as nat,
                None => 0,
            },
            None => 0,
        },
        Err(_) => 0,
    }
}

/// Decodes a Gemini `streamGenerateContent` event stream chunk by chunk (see `gemini_step`);
/// `finish` yields the closing events once the server ends the stream.
pub struct GeminiDecoder {
    next_index: usize,
    text_index: Option<usize>,
    saw_function_call: bool,
    input_tokens: u32,
    output_tokens: u32,
    finish_reason: Option<String>,
}

impl GeminiDecoder {
    pub closed spec fn state(&self) -> GeminiState {
        GeminiState {
            next_index: self.next_index,
            text_index: self.text_index,
            saw_function_call: self.saw_function_call,
            input_tokens: self.input_tokens,
            output_tokens: self.output_tokens,
            finish_reason: opt_view(self.finish_reason),
        }
    }

    pub fn new() -> (d: GeminiDecoder)
        ensures
            d.state() == gemini_initial(),
    {
        GeminiDecoder {
            next_index: 0,
            text_index: None,
            saw_function_call: false,
            input_tokens: 0,
            output_tokens: 0,
            finish_reason: None,
        }
    }

    /// Whether the block indices still free suffice for `chunk`.
    pub fn has_room(&self, chunk: &Result<GeminiChunk, String>) -> (r: bool)
        ensures
            r == (self.state().next_index + chunk_openings(*chunk) <= usize::MAX),
    {
        let needed: usize = match chunk {
            Ok(c) => match &c.candidate {
                Some(cand) => match &cand.parts {
                    Some(ps) => ps.len(),
                    None => 0,
                },
                None => 0,
            },
            Err(_) => 0,
        };
        self.next_index <= usize::MAX - needed
    }

    fn part(&mut self, p: GeminiPartDelta, events: &mut Vec<StreamEvent>)
        requires
            old(self).next_index < usize::MAX,
        ensures
            final(self).state() == part_step(old(self).state(), p).0,
            final(events).deep_view() == old(events).deep_view() + part_step(old(self).state(), p).1,
            final(self).next_index <= old(self).next_index + 1,
    {
        let ghost ev0 = events.deep_view();
        let ghost p0 = p;
        match p.text {
            Some(t) => match self.text_index {
                Some(i) => {
                    events.push(StreamEvent::TextDelta { index: i, text: t });
                },
                None => {
                    let idx = self.next_index;
                    self.next_index = idx + 1;
                    self.text_index = Some(idx);
                    events.push(StreamEvent::ContentBlockStart { index: idx, block: PartialBlock::Text });
                    events.push(StreamEvent::TextDelta { index: idx, text: t });
                },
            },
            None => match p.function_call {
                Some(fc) => {
                    let idx = self.next_index;
                    self.next_index = idx + 1;
                    self.saw_function_call = true;
                    let name = or_empty(fc.name);
                    events.push(StreamEvent::ContentBlockStart {
                        index: idx,
                        block: PartialBlock::ToolUse { id: name.clone(), name, thought_signature: p.thought_signature },
                    });
                    events.push(StreamEvent::ToolInputDelta { index: idx, partial_json: fc.args_json });
                    events.push(StreamEvent::ContentBlockDone { index: idx });
                },
                None => {},
            },
        }
        assert(events.deep_view() =~= ev0 + part_step(old(self).state(), p0).1);
    }

    /// Applies one chunk (see `gemini_step`).
    pub fn step(&mut self, chunk: Result<GeminiChunk, String>) -> (o: StepOutput)
        requires
            old(self).state().next_index + chunk_openings(chunk) <= usize::MAX,
        ensures
            final(self).state() == gemini_step(old(self).state(), chunk).0,
            o.deep_view() == gemini_step(old(self).state(), chunk).1,
    {
        match chunk {
            Err(m) => fail(LlmError::ParseError(join2("invalid stream chunk json: ", m.as_str()))),
            Ok(c) => {
                match c.usage {
                    Some(u) => {
                        self.input_tokens = match u.prompt_token_count { Some(v) => (#[verifier::truncate] (v as u32)), None => 0 };
                        self.output_tokens = match u.candidates_token_count { Some(v) => (#[verifier::truncate] (v as u32)), None => 0 };
                    },
                    None => {},
                }
                match c.candidate {
                    None => nothing(),
                    Some(cand) => {
                        match cand.finish_reason {
                            Some(fr) => {
                                self.finish_reason = Some(fr);
                            },
                            None => {},
                        }
                        let mut events: Vec<StreamEvent> = Vec::new();
                        match cand.parts {
                            Some(ps) => {
                                let ghost st0 = self.state();
                                let mut i: usize = 0;
                                while i < ps.len()
                                    invariant
                                        i <= ps.len(),
                                        self.next_index <= st0.next_index + i,
                                        st0.next_index + ps.len() <= usize::MAX,
                                        self.state() == parts_fold(st0, ps@, i as nat).0,
                                        events.deep_view() == parts_fold(st0, ps@, i as nat).1,
                                    decreases ps.len() - i,
                                {
                                    let ghost sprev = parts_fold(st0, ps@, i as nat);
                                    assert(self.state() =~= sprev.0);
                                    self.part(ps[i].clone_part(), &mut events);
                                    assert(events.deep_view() =~= parts_fold(st0, ps@, i as nat + 1).1);
                                    i = i + 1;
                                }
                            },
                            None => {
                                assert(events.deep_view() =~= Seq::<EventModel>::empty());
                            },
                        }
                        go_on_with(events)
                    },
                }
            },
        }
    }

    /// The closing events, once the server has ended the stream (see `gemini_finish`).
    pub fn finish(&self) -> (evs: Vec<StreamEvent>)
        ensures
            evs.deep_view() == gemini_finish(self.state()),
    {
        let mut evs: Vec<StreamEvent> = Vec::new();
        match self.text_index {
            Some(i) => {
                evs.push(StreamEvent::ContentBlockDone { index: i });
            },
            None => {},
        }
        let stop_reason = if self.saw_function_call {
            StopReason::ToolUse
        } else {
            match &self.finish_reason {
                Some(r) => {
                    if str_eq(r.as_str(), "STOP") {
                        StopReason::EndTurn
                    } else if str_eq(r.as_str(), "MAX_TOKENS") {
                        StopReason::MaxTokens
                    } else {
                        StopReason::Other(r.clone())
                    }
                },
                None => crate::llm::sse::other_reason("unknown"),
            }
        };
        let ghost before = evs.deep_view();
        evs.push(StreamEvent::Done { stop_reason, input_tokens: self.input_tokens, output_tokens: self.output_tokens });
        assert(evs.deep_view() =~= gemini_finish(self.state()));
        evs
    }
}

impl GeminiPartDelta {
    fn clone_part(&self) -> (r: GeminiPartDelta)
        ensures
            r == *self,
    {
        GeminiPartDelta {
            text: clone_opt_string(&self.text),
            function_call: match &self.function_call {
                Some(fc) => Some(GeminiCall { name: clone_opt_string(&fc.name), args_json: fc.args_json.clone() }),
                None => None,
            },
            thought_signature: clone_opt_string(&self.thought_signature),
        }
    }
}

} // verus!

verus! {

/// The blocks opened from `from` on: numbered one after the other, from `from` up.
pub open spec fn numbered_from(blocks: Seq<usize>, from: int) -> bool {
    forall|i: int| 0 <= i < blocks.len() ==> #[trigger] blocks[i] == from + i
}

/// One part opens at most one block, always at the next free index, and the next free index
/// moves past every block it opens. A function call always opens a new tool-use block named
/// after the call, and everything the call yields belongs to that block.
pub proof fn lemma_part_opens_fresh_blocks(st: GeminiState, p: GeminiPartDelta)
    requires
        st.next_index < usize::MAX,
    ensures
        ({
            let (s2, evs) = part_step(st, p);
            &&& s2.next_index == st.next_index + opened_blocks(evs).len()
            &&& numbered_from(opened_blocks(evs), st.next_index as int)
            &&& (p.text is None && p.function_call is Some) ==> {
                let name = match p.function_call->Some_0.name {
                    Some(s) => s@,
                    None => Seq::<char>::empty(),
                };
                &&& opened_blocks(evs) == seq![st.next_index]
                &&& evs[0] == EventModel::ContentBlockStart {
                    index: st.next_index,
                    block: PartialModel::ToolUse { id: name, name, thought_signature: opt_view(p.thought_signature) },
                }
                &&& forall|i: int| 0 <= i < evs.len() ==> event_block(#[trigger] evs[i]) == Some(st.next_index)
            }
        }),
{
    let (s2, evs) = part_step(st, p);
    reveal_with_fuel(opened_blocks, 4);
    assert(evs.len() <= 3);
    if evs.len() == 3 {
        assert(evs.drop_last().drop_last().drop_last() =~= Seq::<EventModel>::empty());
    } else if evs.len() == 2 {
        assert(evs.drop_last().drop_last() =~= Seq::<EventModel>::empty());
    } else if evs.len() == 1 {
        assert(evs.drop_last() =~= Seq::<EventModel>::empty());
    }
}

/// The parts of a chunk open their blocks one after the other from the next free index, never
/// reusing one: every function call of a reply gets a block of its own.
pub proof fn lemma_parts_open_fresh_blocks(st: GeminiState, ps: Seq<GeminiPartDelta>, n: nat)
    requires
        n <= ps.len(),
        st.next_index + n <= usize::MAX,
    ensures
        ({
            let (s2, evs) = parts_fold(st, ps, n);
            &&& s2.next_index == st.next_index + opened_blocks(evs).len()
            &&& numbered_from(opened_blocks(evs), st.next_index as int)
            &&& opened_blocks(evs).len() <= n
        }),
    decreases n,
{
    if n > 0 {
        lemma_parts_open_fresh_blocks(st, ps, (n - 1) as nat);
        let (s1, e1) = parts_fold(st, ps, (n - 1) as nat);
        lemma_part_opens_fresh_blocks(s1, ps[n - 1]);
        let (s2, e2) = part_step(s1, ps[n - 1]);
        lemma_opened_blocks_append(e1, e2);
        let o1 = opened_blocks(e1);
        let o2 = opened_blocks(e2);
        assert forall|i: int| 0 <= i < (o1 + o2).len() implies #[trigger] (o1 + o2)[i] == st.next_index + i by {
            if i < o1.len() {
                assert((o1 + o2)[i] == o1[i]);
            } else {
                assert((o1 + o2)[i] == o2[i - o1.len()]);
            }
        }
    }
}

} // verus!

verus! {

/// How many of the first `i` blocks are sent as parts: all but reasoning traces.
pub open spec fn sent_blocks_before(bs: Seq<BlockModel>, i: nat) -> nat
    decreases i,
{
    if i == 0 {
        0
    } else {
        sent_blocks_before(bs, (i - 1) as nat) + if bs[i - 1] is Thinking { 0nat } else { 1nat }
    }
}

proof fn lemma_sent_blocks_grow(bs: Seq<BlockModel>, i: nat, n: nat)
    requires
        i <= n,
    ensures
        sent_blocks_before(bs, i) <= sent_blocks_before(bs, n),
    decreases n,
{
    if n > i {
        lemma_sent_blocks_grow(bs, i, (n - 1) as nat);
    }
}

/// `p` is what block `b` is sent as: text as text, a tool call as a function call with the
/// call's name, input and signature, a tool result as a function response named by the call
/// it answers and carrying its content.
pub open spec fn sent_as(b: BlockModel, p: PartModel) -> bool {
    match b {
        BlockModel::Text { text } => p == PartModel::Text { text },
        BlockModel::ToolUse { name, input, thought_signature, .. } => p == PartModel::FunctionCall {
            name,
            args: input,
            thought_signature,
        },
        BlockModel::ToolResult { tool_use_id, content, .. } => p == PartModel::FunctionResponse {
            name: tool_use_id,
            content,
        },
        BlockModel::Thinking { .. } => false,
    }
}

/// Every block of a message but its reasoning traces becomes exactly one part, in order: the
/// parts are as many as those blocks, and the part for the k-th of them is what that block is
/// sent as.
pub proof fn lemma_blocks_sent_as_parts(bs: Seq<BlockModel>, n: nat)
    requires
        n <= bs.len(),
    ensures
        parts_for(bs, n).len() == sent_blocks_before(bs, n),
        forall|i: int|
            0 <= i < n && !(bs[i] is Thinking) ==> sent_as(#[trigger] bs[i], parts_for(bs, n)[sent_blocks_before(bs, i as nat) as int]),
    decreases n,
{
    if n > 0 {
        lemma_blocks_sent_as_parts(bs, (n - 1) as nat);
        let prev = parts_for(bs, (n - 1) as nat);
        assert forall|i: int|
            0 <= i < n && !(bs[i] is Thinking) implies sent_as(#[trigger] bs[i], parts_for(bs, n)[sent_blocks_before(bs, i as nat) as int]) by {
            if i < n - 1 {
                lemma_sent_blocks_grow(bs, (i + 1) as nat, (n - 1) as nat);
                assert(parts_for(bs, n)[sent_blocks_before(bs, i as nat) as int] == prev[sent_blocks_before(bs, i as nat) as int]);
            }
        }
    }
}

} // verus!

verus! {

/// A function call anywhere in a reply makes it stop for tool use: the part records it, no
/// later part forgets it, and a reply that saw one reports tool use.
pub proof fn lemma_function_call_means_tool_use(st: GeminiState, p: GeminiPartDelta)
    ensures
        (p.text is None && p.function_call is Some) ==> part_step(st, p).0.saw_function_call,
        st.saw_function_call ==> part_step(st, p).0.saw_function_call,
        st.saw_function_call ==> gemini_stop_reason(st) == StopModel::ToolUse,
{
}

} // verus!
