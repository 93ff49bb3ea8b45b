use vstd::prelude::*;

verus! {

/// Who authored a message in a conversation.
#[derive(Debug, Clone, Copy, PartialEq, Eq)]
pub enum LlmRole {
    User,
    Assistant,
}

/// One block of a message. A tool call's `input` is held as its JSON text.
///
/// `thought_signature` is Gemini-specific: its "thinking" models attach an opaque signature to a
/// functionCall part, which must be echoed back verbatim when that tool call is replayed into a
/// later turn. `Thinking` is a provider's own reasoning trace, kept apart from `Text`;
/// its `signature` (Anthropic) must likewise be echoed back verbatim.
#[derive(Debug, Clone, PartialEq)]
pub enum ContentBlock {
    Text { text: String },
    ToolUse { id: String, name: String, input: String, thought_signature: Option<String> },
    ToolResult { tool_use_id: String, content: String, is_error: bool },
    Thinking { text: String, signature: Option<String> },
}

/// The mathematical value of a `ContentBlock`: every string taken as its characters.
pub enum BlockModel {
    Text { text: Seq<char> },
    ToolUse { id: Seq<char>, name: Seq<char>, input: Seq<char>, thought_signature: Option<Seq<char>> },
    ToolResult { tool_use_id: Seq<char>, content: Seq<char>, is_error: bool },
    Thinking { text: Seq<char>, signature: Option<Seq<char>> },
}

impl DeepView for ContentBlock {
    type V = BlockModel;

    open spec fn deep_view(&self) -> BlockModel {
        match self {
            ContentBlock::Text { text } => BlockModel::Text { text: text@ },
            ContentBlock::ToolUse { id, name, input, thought_signature } => BlockModel::ToolUse {
                id: id@,
                name: name@,
                input: input@,
                thought_signature: thought_signature.deep_view(),
            },
            ContentBlock::ToolResult { tool_use_id, content, is_error } => BlockModel::ToolResult {
                tool_use_id: tool_use_id@,
                content: content@,
                is_error: *is_error,
            },
            ContentBlock::Thinking { text, signature } => BlockModel::Thinking {
                text: text@,
                signature: signature.deep_view(),
            },
        }
    }
}

#[derive(Debug, Clone)]
pub struct LlmMessage {
    pub role: LlmRole,
    pub content: Vec<ContentBlock>,
}

/// A tool offered to the model; `input_schema` is the JSON text of its parameter schema.
#[derive(Debug, Clone)]
pub struct ToolDefinition {
    pub name: String,
    pub description: String,
    pub input_schema: String,
}

#[derive(Debug, Clone)]
pub struct LlmRequest {
    pub system: Option<String>,
    pub messages: Vec<LlmMessage>,
    pub tools: Vec<ToolDefinition>,
    pub max_tokens: u32,
    /// Asks the provider to produce a reasoning trace alongside its reply, when it supports one.
    pub enable_reasoning: bool,
}

#[derive(Debug, Clone, PartialEq)]
pub enum StopReason {
    EndTurn,
    ToolUse,
    MaxTokens,
    Other(String),
}

pub enum StopModel {
    EndTurn,
    ToolUse,
    MaxTokens,
    Other(Seq<char>),
}

impl DeepView for StopReason {
    type V = StopModel;

    open spec fn deep_view(&self) -> StopModel {
        match self {
            StopReason::EndTurn => StopModel::EndTurn,
            StopReason::ToolUse => StopModel::ToolUse,
            StopReason::MaxTokens => StopModel::MaxTokens,
            StopReason::Other(s) => StopModel::Other(s@),
        }
    }
}

#[derive(Debug, Clone, PartialEq)]
pub struct LlmResponse {
    pub content: Vec<ContentBlock>,
    pub stop_reason: StopReason,
    pub input_tokens: u32,
    pub output_tokens: u32,
}

pub struct ResponseModel {
    pub content: Seq<BlockModel>,
    pub stop_reason: StopModel,
    pub input_tokens: u32,
    pub output_tokens: u32,
}

impl DeepView for LlmResponse {
    type V = ResponseModel;

    open spec fn deep_view(&self) -> ResponseModel {
        ResponseModel {
            content: self.content.deep_view(),
            stop_reason: self.stop_reason.deep_view(),
            input_tokens: self.input_tokens,
            output_tokens: self.output_tokens,
        }
    }
}

/// Why a call to a model provider failed. `Http` carries the transport error's text.
#[derive(Debug, Clone, PartialEq)]
pub enum LlmError {
    Http(String),
    ProviderError(String),
    ParseError(String),
}

pub enum ErrorModel {
    Http(Seq<char>),
    ProviderError(Seq<char>),
    ParseError(Seq<char>),
}

impl DeepView for LlmError {
    type V = ErrorModel;

    open spec fn deep_view(&self) -> ErrorModel {
        match self {
            LlmError::Http(s) => ErrorModel::Http(s@),
            LlmError::ProviderError(s) => ErrorModel::ProviderError(s@),
            LlmError::ParseError(s) => ErrorModel::ParseError(s@),
        }
    }
}

/// The kind of block a `ContentBlockStart` opens.
#[derive(Debug, Clone, PartialEq)]
pub enum PartialBlock {
    Text,
    Thinking,
    ToolUse { id: String, name: String, thought_signature: Option<String> },
}

pub enum PartialModel {
    Text,
    Thinking,
    ToolUse { id: Seq<char>, name: Seq<char>, thought_signature: Option<Seq<char>> },
}

impl DeepView for PartialBlock {
    type V = PartialModel;

    open spec fn deep_view(&self) -> PartialModel {
        match self {
            PartialBlock::Text => PartialModel::Text,
            PartialBlock::Thinking => PartialModel::Thinking,
            PartialBlock::ToolUse { id, name, thought_signature } => PartialModel::ToolUse {
                id: id@,
                name: name@,
                thought_signature: thought_signature.deep_view(),
            },
        }
    }
}

/// One event of a streamed reply.
#[derive(Debug, Clone, PartialEq)]
pub enum StreamEvent {
    ContentBlockStart { index: usize, block: PartialBlock },
    TextDelta { index: usize, text: String },
    ThinkingDelta { index: usize, text: String },
    /// Arrives after a thinking block's text is complete, carrying the signature that must be
    /// echoed back verbatim if the block is replayed into a later turn.
    ThinkingSignature { index: usize, signature: String },
    ToolInputDelta { index: usize, partial_json: String },
    ContentBlockDone { index: usize },
    Done { stop_reason: StopReason, input_tokens: u32, output_tokens: u32 },
}

pub enum EventModel {
    ContentBlockStart { index: usize, block: PartialModel },
    TextDelta { index: usize, text: Seq<char> },
    ThinkingDelta { index: usize, text: Seq<char> },
    ThinkingSignature { index: usize, signature: Seq<char> },
    ToolInputDelta { index: usize, partial_json: Seq<char> },
    ContentBlockDone { index: usize },
    Done { stop_reason: StopModel, input_tokens: u32, output_tokens: u32 },
}

impl DeepView for StreamEvent {
    type V = EventModel;

    open spec fn deep_view(&self) -> EventModel {
        match self {
            StreamEvent::ContentBlockStart { index, block } => EventModel::ContentBlockStart {
                index: *index,
                block: block.deep_view(),
            },
            StreamEvent::TextDelta { index, text } => EventModel::TextDelta { index: *index, text: text@ },
            StreamEvent::ThinkingDelta { index, text } => EventModel::ThinkingDelta { index: *index, text: text@ },
            StreamEvent::ThinkingSignature { index, signature } => EventModel::ThinkingSignature {
                index: *index,
                signature: signature@,
            },
            StreamEvent::ToolInputDelta { index, partial_json } => EventModel::ToolInputDelta {
                index: *index,
                partial_json: partial_json@,
            },
            StreamEvent::ContentBlockDone { index } => EventModel::ContentBlockDone { index: *index },
            StreamEvent::Done { stop_reason, input_tokens, output_tokens } => EventModel::Done {
                stop_reason: stop_reason.deep_view(),
                input_tokens: *input_tokens,
                output_tokens: *output_tokens,
            },
        }
    }
}

/// A stream item: an event, or the error that ended the stream.
pub open spec fn item_model(item: Result<StreamEvent, LlmError>) -> Result<EventModel, ErrorModel> {
    match item {
        Ok(e) => Ok(e.deep_view()),
        Err(e) => Err(e.deep_view()),
    }
}

pub open spec fn items_model(items: Seq<Result<StreamEvent, LlmError>>) -> Seq<Result<EventModel, ErrorModel>> {
    items.map_values(|i: Result<StreamEvent, LlmError>| item_model(i))
}

pub open spec fn outcome_model(r: Result<LlmResponse, LlmError>) -> Result<ResponseModel, ErrorModel> {
    match r {
        Ok(v) => Ok(v.deep_view()),
        Err(e) => Err(e.deep_view()),
    }
}

} // verus!

verus! {

/// The block an event belongs to (`None` for the end of the reply).
pub open spec fn event_block(e: EventModel) -> Option<usize> {
    match e {
        EventModel::ContentBlockStart { index, .. } => Some(index),
        EventModel::TextDelta { index, .. } => Some(index),
        EventModel::ThinkingDelta { index, .. } => Some(index),
        EventModel::ThinkingSignature { index, .. } => Some(index),
        EventModel::ToolInputDelta { index, .. } => Some(index),
        EventModel::ContentBlockDone { index } => Some(index),
        EventModel::Done { .. } => None,
    }
}

/// The blocks that `evs` open, in order.
pub open spec fn opened_blocks(evs: Seq<EventModel>) -> Seq<usize>
    decreases evs.len(),
{
    if evs.len() == 0 {
        Seq::empty()
    } else {
        opened_blocks(evs.drop_last()) + match evs.last() {
            EventModel::ContentBlockStart { index, .. } => seq![index],
            _ => Seq::empty(),
        }
    }
}

pub proof fn lemma_opened_blocks_append(a: Seq<EventModel>, b: Seq<EventModel>)
    ensures
        opened_blocks(a + b) == opened_blocks(a) + opened_blocks(b),
    decreases b.len(),
{
    if b.len() == 0 {
        assert(a + b =~= a);
        assert(opened_blocks(a) + opened_blocks(b) =~= opened_blocks(a));
    } else {
        lemma_opened_blocks_append(a, b.drop_last());
        assert((a + b).drop_last() =~= a + b.drop_last());
        assert((a + b).last() == b.last());
        assert(opened_blocks(a + b) =~= opened_blocks(a) + opened_blocks(b));
    }
}

} // verus!
