use vstd::prelude::*;

use std::collections::BTreeMap;

use crate::json::{json_syntax_error, json_syntax_error_of};
use crate::llm::types::{
    outcome_model, ToolDefinition,
    items_model, BlockModel, ContentBlock, ErrorModel, EventModel, LlmError, LlmResponse, PartialBlock,
    PartialModel, ResponseModel, StopReason, StreamEvent,
};

verus! {

/// The events that announce one block of a finished reply at position `index`.
/// A `ToolResult` is never part of a provider's own reply, so it announces nothing.
pub open spec fn block_events(index: usize, b: BlockModel) -> Seq<EventModel> {
    match b {
        BlockModel::Text { text } => seq![
            EventModel::ContentBlockStart { index, block: PartialModel::Text },
            EventModel::TextDelta { index, text },
            EventModel::ContentBlockDone { index },
        ],
        BlockModel::ToolUse { id, name, input, thought_signature } => seq![
            EventModel::ContentBlockStart { index, block: PartialModel::ToolUse { id, name, thought_signature } },
            EventModel::ToolInputDelta { index, partial_json: input },
            EventModel::ContentBlockDone { index },
        ],
        BlockModel::ToolResult { .. } => seq![],
        BlockModel::Thinking { text, signature } => seq![
            EventModel::ContentBlockStart { index, block: PartialModel::Thinking },
            EventModel::ThinkingDelta { index, text },
        ] + match signature {
            Some(s) => seq![EventModel::ThinkingSignature { index, signature: s }],
            None => Seq::<EventModel>::empty(),
        } + seq![EventModel::ContentBlockDone { index }],
    }
}

/// The events announcing the first `n` blocks, block by block.
pub open spec fn blocks_events(blocks: Seq<BlockModel>, n: nat) -> Seq<EventModel>
    decreases n,
{
    if n == 0 {
        Seq::empty()
    } else {
        blocks_events(blocks, (n - 1) as nat) + block_events((n - 1) as usize, blocks[n - 1])
    }
}

/// The whole event sequence of a finished reply: every block in order, then `Done`.
pub open spec fn response_events(r: ResponseModel) -> Seq<EventModel> {
    blocks_events(r.content, r.content.len()) + seq![
        EventModel::Done { stop_reason: r.stop_reason, input_tokens: r.input_tokens, output_tokens: r.output_tokens },
    ]
}

pub open spec fn all_ok(evs: Seq<EventModel>) -> Seq<Result<EventModel, ErrorModel>> {
    evs.map_values(|e: EventModel| Ok::<EventModel, ErrorModel>(e))
}

pub(crate) fn clone_opt_string(o: &Option<String>) -> (r: Option<String>)
    ensures
        r == *o,
{
    match o {
        Some(s) => Some(s.clone()),
        None => None,
    }
}

pub(crate) fn clone_stop_reason(s: &StopReason) -> (r: StopReason)
    ensures
        r == *s,
{
    match s {
        StopReason::EndTurn => StopReason::EndTurn,
        StopReason::ToolUse => StopReason::ToolUse,
        StopReason::MaxTokens => StopReason::MaxTokens,
        StopReason::Other(t) => StopReason::Other(t.clone()),
    }
}

/// Replays a complete (non-streaming) reply as the event sequence a streaming provider would
/// have sent for it, so that fake providers need no network round trip.
pub fn response_to_stream(response: &LlmResponse) -> (out: Vec<Result<StreamEvent, LlmError>>)
    ensures
        items_model(out@) == all_ok(response_events(response.deep_view())),
{
    let ghost blocks = response.content.deep_view();
    let mut out: Vec<Result<StreamEvent, LlmError>> = Vec::new();
    let n = response.content.len();
    let mut i: usize = 0;
    while i < n
        invariant
            n == response.content.len(),
            blocks == response.content.deep_view(),
            i <= n,
            items_model(out@) =~= all_ok(blocks_events(blocks, i as nat)),
        decreases n - i,
    {
        let ghost before = out@;
        assert(blocks[i as int] == response.content[i as int].deep_view());
        match &response.content[i] {
            ContentBlock::Text { text } => {
                out.push(Ok(StreamEvent::ContentBlockStart { index: i, block: PartialBlock::Text }));
                out.push(Ok(StreamEvent::TextDelta { index: i, text: text.clone() }));
                out.push(Ok(StreamEvent::ContentBlockDone { index: i }));
            },
            ContentBlock::ToolUse { id, name, input, thought_signature } => {
                out.push(Ok(StreamEvent::ContentBlockStart {
                    index: i,
                    block: PartialBlock::ToolUse {
                        id: id.clone(),
                        name: name.clone(),
                        thought_signature: clone_opt_string(thought_signature),
                    },
                }));
                out.push(Ok(StreamEvent::ToolInputDelta { index: i, partial_json: input.clone() }));
                out.push(Ok(StreamEvent::ContentBlockDone { index: i }));
            },
            ContentBlock::ToolResult { .. } => {},
            ContentBlock::Thinking { text, signature } => {
                out.push(Ok(StreamEvent::ContentBlockStart { index: i, block: PartialBlock::Thinking }));
                out.push(Ok(StreamEvent::ThinkingDelta { index: i, text: text.clone() }));
                match signature {
                    Some(s) => {
                        out.push(Ok(StreamEvent::ThinkingSignature { index: i, signature: s.clone() }));
                    },
                    None => {},
                }
                out.push(Ok(StreamEvent::ContentBlockDone { index: i }));
            },
        }
        let ghost added = block_events(i, blocks[i as int]);
        assert(items_model(out@) =~= items_model(before) + all_ok(added));
        assert(blocks_events(blocks, (i + 1) as nat) == blocks_events(blocks, i as nat) + added);
        assert(all_ok(blocks_events(blocks, i as nat) + added) =~= all_ok(blocks_events(blocks, i as nat)) + all_ok(added));
        i = i + 1;
    }
    let ghost before = out@;
    out.push(Ok(StreamEvent::Done {
        stop_reason: clone_stop_reason(&response.stop_reason),
        input_tokens: response.input_tokens,
        output_tokens: response.output_tokens,
    }));
    proof {
        let tail = seq![EventModel::Done {
            stop_reason: response.stop_reason.deep_view(),
            input_tokens: response.input_tokens,
            output_tokens: response.output_tokens,
        }];
        assert(items_model(out@) =~= items_model(before) + all_ok(tail));
        assert(all_ok(blocks_events(blocks, n as nat) + tail) =~= all_ok(blocks_events(blocks, n as nat)) + all_ok(tail));
    }
    out
}


/// A block that has been opened but not yet closed.
pub enum PendingBlock {
    Text { text: String },
    Thinking { text: String, signature: Option<String> },
    ToolUse { id: String, name: String, input_json: String, thought_signature: Option<String> },
}

pub enum PendingModel {
    Text { text: Seq<char> },
    Thinking { text: Seq<char>, signature: Option<Seq<char>> },
    ToolUse { id: Seq<char>, name: Seq<char>, input_json: Seq<char>, thought_signature: Option<Seq<char>> },
}

impl DeepView for PendingBlock {
    type V = PendingModel;

    open spec fn deep_view(&self) -> PendingModel {
        match self {
            PendingBlock::Text { text } => PendingModel::Text { text: text@ },
            PendingBlock::Thinking { text, signature } => PendingModel::Thinking {
                text: text@,
                signature: signature.deep_view(),
            },
            PendingBlock::ToolUse { id, name, input_json, thought_signature } => PendingModel::ToolUse {
                id: id@,
                name: name@,
                input_json: input_json@,
                thought_signature: thought_signature.deep_view(),
            },
        }
    }
}

/// What has been gathered from a stream so far: the open blocks and the closed ones, by index.
#[verifier::ext_equal]
pub struct CollectModel {
    pub pending: Map<usize, PendingModel>,
    pub finished: Map<usize, BlockModel>,
}

pub open spec fn empty_collect() -> CollectModel {
    CollectModel { pending: Map::empty(), finished: Map::empty() }
}

/// The empty block that a `ContentBlockStart` opens.
pub open spec fn fresh_pending(b: PartialModel) -> PendingModel {
    match b {
        PartialModel::Text => PendingModel::Text { text: Seq::empty() },
        PartialModel::Thinking => PendingModel::Thinking { text: Seq::empty(), signature: None },
        PartialModel::ToolUse { id, name, thought_signature } => PendingModel::ToolUse {
            id,
            name,
            input_json: Seq::empty(),
            thought_signature,
        },
    }
}

/// Closing a block: a tool call with no input text gets the empty object `{}`; one whose input
/// text is not JSON fails the whole collection.
pub open spec fn finish_pending(p: PendingModel) -> Result<BlockModel, ErrorModel> {
    match p {
        PendingModel::Text { text } => Ok(BlockModel::Text { text }),
        PendingModel::Thinking { text, signature } => Ok(BlockModel::Thinking { text, signature }),
        PendingModel::ToolUse { id, name, input_json, thought_signature } => {
            if input_json.len() == 0 {
                Ok(BlockModel::ToolUse { id, name, input: "{}"@, thought_signature })
            } else {
                match json_syntax_error(input_json) {
                    None => Ok(BlockModel::ToolUse { id, name, input: input_json, thought_signature }),
                    Some(msg) => Err(ErrorModel::ParseError("invalid tool input json: "@ + msg)),
                }
            }
        },
    }
}

/// One event applied to what has been gathered: the new state, and the outcome when the event
/// ends the collection. Deltas for an index that is not open as a block of their kind are ignored.
pub open spec fn collect_step(st: CollectModel, ev: EventModel) -> (CollectModel, Option<Result<ResponseModel, ErrorModel>>) {
    match ev {
        EventModel::ContentBlockStart { index, block } => (
            CollectModel { pending: st.pending.insert(index, fresh_pending(block)), finished: st.finished },
            None,
        ),
        EventModel::TextDelta { index, text } => {
            if st.pending.contains_key(index) {
                match st.pending[index] {
                    PendingModel::Text { text: buf } => (
                        CollectModel {
                            pending: st.pending.insert(index, PendingModel::Text { text: buf + text }),
                            finished: st.finished,
                        },
                        None,
                    ),
                    _ => (st, None),
                }
            } else {
                (st, None)
            }
        },
        EventModel::ThinkingDelta { index, text } => {
            if st.pending.contains_key(index) {
                match st.pending[index] {
                    PendingModel::Thinking { text: buf, signature } => (
                        CollectModel {
                            pending: st.pending.insert(index, PendingModel::Thinking { text: buf + text, signature }),
                            finished: st.finished,
                        },
                        None,
                    ),
                    _ => (st, None),
                }
            } else {
                (st, None)
            }
        },
        EventModel::ThinkingSignature { index, signature } => {
            if st.pending.contains_key(index) {
                match st.pending[index] {
                    PendingModel::Thinking { text, signature: _ } => (
                        CollectModel {
                            pending: st.pending.insert(index, PendingModel::Thinking { text, signature: Some(signature) }),
                            finished: st.finished,
                        },
                        None,
                    ),
                    _ => (st, None),
                }
            } else {
                (st, None)
            }
        },
        EventModel::ToolInputDelta { index, partial_json } => {
            if st.pending.contains_key(index) {
                match st.pending[index] {
                    PendingModel::ToolUse { id, name, input_json, thought_signature } => (
                        CollectModel {
                            pending: st.pending.insert(
                                index,
                                PendingModel::ToolUse { id, name, input_json: input_json + partial_json, thought_signature },
                            ),
                            finished: st.finished,
                        },
                        None,
                    ),
                    _ => (st, None),
                }
            } else {
                (st, None)
            }
        },
        EventModel::ContentBlockDone { index } => {
            if st.pending.contains_key(index) {
                match finish_pending(st.pending[index]) {
                    Ok(b) => (
                        CollectModel { pending: st.pending.remove(index), finished: st.finished.insert(index, b) },
                        None,
                    ),
                    Err(e) => (
                        CollectModel { pending: st.pending.remove(index), finished: st.finished },
                        Some(Err(e)),
                    ),
                }
            } else {
                (st, None)
            }
        },
        EventModel::Done { stop_reason, input_tokens, output_tokens } => (
            st,
            Some(Ok(ResponseModel {
                content: ordered_values(st.finished),
                stop_reason,
                input_tokens,
                output_tokens,
            })),
        ),
    }
}

/// The outcome of feeding `items` to a collection in state `st`: the first error item, the
/// reply at the first `Done`, or a parse error when the items run out before either.
pub open spec fn collect_from(st: CollectModel, items: Seq<Result<EventModel, ErrorModel>>) -> Result<ResponseModel, ErrorModel>
    decreases items.len(),
{
    if items.len() == 0 {
        Err(ErrorModel::ParseError("stream ended without a Done event"@))
    } else {
        match items[0] {
            Err(e) => Err(e),
            Ok(ev) => {
                let (st2, out) = collect_step(st, ev);
                match out {
                    Some(r) => r,
                    None => collect_from(st2, items.drop_first()),
                }
            },
        }
    }
}

/// The reply that a whole stream of items collects into.
pub open spec fn collect_spec(items: Seq<Result<EventModel, ErrorModel>>) -> Result<ResponseModel, ErrorModel> {
    collect_from(empty_collect(), items)
}

pub open spec fn opt_outcome_model(o: Option<Result<LlmResponse, LlmError>>) -> Option<Result<ResponseModel, ErrorModel>> {
    match o {
        Some(r) => Some(outcome_model(r)),
        None => None,
    }
}

pub(crate) fn clone_block(b: &ContentBlock) -> (r: ContentBlock)
    ensures
        r == *b,
{
    match b {
        ContentBlock::Text { text } => ContentBlock::Text { text: text.clone() },
        ContentBlock::ToolUse { id, name, input, thought_signature } => ContentBlock::ToolUse {
            id: id.clone(),
            name: name.clone(),
            input: input.clone(),
            thought_signature: clone_opt_string(thought_signature),
        },
        ContentBlock::ToolResult { tool_use_id, content, is_error } => ContentBlock::ToolResult {
            tool_use_id: tool_use_id.clone(),
            content: content.clone(),
            is_error: *is_error,
        },
        ContentBlock::Thinking { text, signature } => ContentBlock::Thinking {
            text: text.clone(),
            signature: clone_opt_string(signature),
        },
    }
}

pub(crate) fn clone_error(e: &LlmError) -> (r: LlmError)
    ensures
        r == *e,
{
    match e {
        LlmError::Http(s) => LlmError::Http(s.clone()),
        LlmError::ProviderError(s) => LlmError::ProviderError(s.clone()),
        LlmError::ParseError(s) => LlmError::ParseError(s.clone()),
    }
}

/// Closes one pending block (see `finish_pending`).
fn finish_block(p: PendingBlock) -> (r: Result<ContentBlock, LlmError>)
    ensures
        outcome_block(r) == finish_pending(p.deep_view()),
{
    match p {
        PendingBlock::Text { text } => Ok(ContentBlock::Text { text }),
        PendingBlock::Thinking { text, signature } => Ok(ContentBlock::Thinking { text, signature }),
        PendingBlock::ToolUse { id, name, input_json, thought_signature } => {
            if input_json.as_str().is_empty() {
                let input = String::from_str("{}");
                Ok(ContentBlock::ToolUse { id, name, input, thought_signature })
            } else {
                match json_syntax_error_of(input_json.as_str()) {
                    None => Ok(ContentBlock::ToolUse { id, name, input: input_json, thought_signature }),
                    Some(msg) => {
                        let mut text = String::from_str("invalid tool input json: ");
                        text.append(msg.as_str());
                        Err(LlmError::ParseError(text))
                    },
                }
            }
        },
    }
}

pub open spec fn outcome_block(r: Result<ContentBlock, LlmError>) -> Result<BlockModel, ErrorModel> {
    match r {
        Ok(b) => Ok(b.deep_view()),
        Err(e) => Err(e.deep_view()),
    }
}

/// The models of the values of `m`, key by key.
pub open spec fn models_of<T: DeepView>(m: Map<usize, T>) -> Map<usize, T::V> {
    m.map_values(|t: T| t.deep_view())
}

proof fn lemma_models_of_insert<T: DeepView>(m: Map<usize, T>, k: usize, v: T)
    ensures
        models_of(m.insert(k, v)) =~= models_of(m).insert(k, v.deep_view()),
{
}

proof fn lemma_models_of_remove<T: DeepView>(m: Map<usize, T>, k: usize)
    ensures
        models_of(m.remove(k)) =~= models_of(m).remove(k),
{
}

proof fn lemma_increasing_keys(ks: Seq<usize>)
    requires
        vstd::std_specs::btree::increasing_seq(ks),
    ensures
        forall|i: int, j: int| 0 <= i < j < ks.len() ==> ks[i] < ks[j],
{
    assert forall|i: int, j: int| 0 <= i < j < ks.len() implies ks[i] < ks[j] by {
        assert(vstd::std_specs::cmp::OrdSpec::cmp_spec(&ks[i], &ks[j]) is Less);
    }
}

/// Gathers a streamed reply event by event: the open blocks and the closed ones, by index.
/// Closed blocks are handed out in index order, the order of the finished reply.
pub struct StreamCollector {
    pending: BTreeMap<usize, PendingBlock>,
    finished: BTreeMap<usize, ContentBlock>,
}

impl StreamCollector {
    pub closed spec fn model(&self) -> CollectModel {
        CollectModel { pending: models_of(self.pending@), finished: models_of(self.finished@) }
    }

    pub fn new() -> (c: StreamCollector)
        ensures
            c.model() == empty_collect(),
    {
        let c = StreamCollector { pending: BTreeMap::new(), finished: BTreeMap::new() };
        assert(c.model() =~= empty_collect());
        c
    }

    /// Puts `b` back under `index`, where it was just taken from.
    fn put_pending(&mut self, index: usize, b: PendingBlock)
        ensures
            final(self).pending@ == old(self).pending@.insert(index, b),
            final(self).finished@ == old(self).finished@,
    {
        self.pending.insert(index, b);
    }

    /// Applies one event (see `collect_step`); returns the outcome when the event ends the
    /// collection.
    pub fn step(&mut self, event: StreamEvent) -> (out: Option<Result<LlmResponse, LlmError>>)
        ensures
            (final(self).model(), opt_outcome_model(out)) == collect_step(old(self).model(), event.deep_view()),
    {
        let ghost ev = event.deep_view();
        let ghost p0 = self.pending@;
        let ghost m0 = self.model();
        match event {
            StreamEvent::ContentBlockStart { index, block } => {
                let fresh = match block {
                    PartialBlock::Text => PendingBlock::Text { text: String::new() },
                    PartialBlock::Thinking => PendingBlock::Thinking { text: String::new(), signature: None },
                    PartialBlock::ToolUse { id, name, thought_signature } => PendingBlock::ToolUse {
                        id,
                        name,
                        input_json: String::new(),
                        thought_signature,
                    },
                };
                assert(fresh.deep_view() == fresh_pending(ev->ContentBlockStart_block));
                self.put_pending(index, fresh);
                proof { lemma_models_of_insert(p0, index, fresh); }
                assert(self.model() =~= collect_step(m0, ev).0);
                None
            },
            StreamEvent::TextDelta { index, text } => {
                match self.pending.remove(&index) {
                    Some(blk) => {
                        let ghost b0 = blk;
                        let nb = match blk {
                            PendingBlock::Text { text: buf } => {
                                let mut buf = buf;
                                buf.append(text.as_str());
                                PendingBlock::Text { text: buf }
                            },
                            other => other,
                        };
                        self.put_pending(index, nb);
                        proof {
                            assert(p0.remove(index).insert(index, nb) =~= p0.insert(index, nb));
                            assert(p0.insert(index, b0) =~= p0);
                            lemma_models_of_insert(p0, index, nb);
                        }
                        assert(self.model() =~= collect_step(m0, ev).0);
                    },
                    None => {
                        assert(self.pending@ =~= p0);
                    },
                }
                None
            },
            StreamEvent::ThinkingDelta { index, text } => {
                match self.pending.remove(&index) {
                    Some(blk) => {
                        let ghost b0 = blk;
                        let nb = match blk {
                            PendingBlock::Thinking { text: buf, signature } => {
                                let mut buf = buf;
                                buf.append(text.as_str());
                                PendingBlock::Thinking { text: buf, signature }
                            },
                            other => other,
                        };
                        self.put_pending(index, nb);
                        proof {
                            assert(p0.remove(index).insert(index, nb) =~= p0.insert(index, nb));
                            assert(p0.insert(index, b0) =~= p0);
                            lemma_models_of_insert(p0, index, nb);
                        }
                        assert(self.model() =~= collect_step(m0, ev).0);
                    },
                    None => {
                        assert(self.pending@ =~= p0);
                    },
                }
                None
            },
            StreamEvent::ThinkingSignature { index, signature } => {
                match self.pending.remove(&index) {
                    Some(blk) => {
                        let ghost b0 = blk;
                        let nb = match blk {
                            PendingBlock::Thinking { text: buf, signature: _ } => PendingBlock::Thinking {
                                text: buf,
                                signature: Some(signature),
                            },
                            other => other,
                        };
                        self.put_pending(index, nb);
                        proof {
                            assert(p0.remove(index).insert(index, nb) =~= p0.insert(index, nb));
                            assert(p0.insert(index, b0) =~= p0);
                            lemma_models_of_insert(p0, index, nb);
                        }
                        assert(self.model() =~= collect_step(m0, ev).0);
                    },
                    None => {
                        assert(self.pending@ =~= p0);
                    },
                }
                None
            },
            StreamEvent::ToolInputDelta { index, partial_json } => {
                match self.pending.remove(&index) {
                    Some(blk) => {
                        let ghost b0 = blk;
                        let nb = match blk {
                            PendingBlock::ToolUse { id, name, input_json, thought_signature } => {
                                let mut buf = input_json;
                                buf.append(partial_json.as_str());
                                PendingBlock::ToolUse { id, name, input_json: buf, thought_signature }
                            },
                            other => other,
                        };
                        self.put_pending(index, nb);
                        proof {
                            assert(p0.remove(index).insert(index, nb) =~= p0.insert(index, nb));
                            assert(p0.insert(index, b0) =~= p0);
                            lemma_models_of_insert(p0, index, nb);
                        }
                        assert(self.model() =~= collect_step(m0, ev).0);
                    },
                    None => {
                        assert(self.pending@ =~= p0);
                    },
                }
                None
            },
            StreamEvent::ContentBlockDone { index } => {
                match self.pending.remove(&index) {
                    Some(blk) => {
                        proof { lemma_models_of_remove(p0, index); }
                        match finish_block(blk) {
                            Ok(b) => {
                                let ghost f0 = self.finished@;
                                self.finished.insert(index, b);
                                proof { lemma_models_of_insert(f0, index, b); }
                                assert(self.model() =~= collect_step(m0, ev).0);
                                None
                            },
                            Err(e) => {
                                assert(self.model() =~= collect_step(m0, ev).0);
                                Some(Err(e))
                            },
                        }
                    },
                    None => {
                        assert(self.pending@ =~= p0);
                        None
                    },
                }
            },
            StreamEvent::Done { stop_reason, input_tokens, output_tokens } => {
                let content = self.finished_content();
                Some(Ok(LlmResponse { content, stop_reason, input_tokens, output_tokens }))
            },
        }
    }

    /// The closed blocks, in index order.
    fn finished_content(&self) -> (content: Vec<ContentBlock>)
        ensures
            content.deep_view() == ordered_values(self.model().finished),
    {
        let ghost m = self.finished@;
        let mut content: Vec<ContentBlock> = Vec::new();
        let vs = self.finished.values();
        let ghost ks = choose|key_seq: Seq<usize>|
            {
                &&& vstd::std_specs::btree::increasing_seq(key_seq)
                &&& key_seq.to_set() == m.dom()
                &&& key_seq.no_duplicates()
                &&& vstd::std_specs::iter::IteratorSpec::remaining(&vs) == key_seq.map(|i: int, k| &m[k])
            };
        for b in it: vs
            invariant
                content.len() == it.index(),
                it.seq() == ks.map(|i: int, k| &m[k]),
                forall|i: int| 0 <= i < it.index() ==> content@[i].deep_view() == #[trigger] it.seq()[i].deep_view(),
        {
            content.push(clone_block(b));
        }
        proof {
            assert(content.len() == ks.len());
            lemma_increasing_keys(ks);
            let mv = models_of(m);
            assert forall|i: int| 0 <= i < ks.len() implies mv.contains_key(#[trigger] ks[i]) by {
                assert(ks.to_set().contains(ks[i]));
            }
            assert forall|k: usize| #[trigger] mv.contains_key(k) implies ks.contains(k) by {
                assert(ks.to_set().contains(k));
            }
            lemma_ordered_values_by_keys(mv, ks);
            assert forall|i: int| 0 <= i < ks.len() implies content.deep_view()[i] == ks.map_values(|k: usize| mv[k])[i] by {
                assert(ks.map(|i: int, k| &m[k])[i] == &m[ks[i]]);
            }
            assert(content.deep_view() =~= ks.map_values(|k: usize| mv[k]));
        }
        content
    }
}


fn clone_event(e: &StreamEvent) -> (r: StreamEvent)
    ensures
        r == *e,
{
    match e {
        StreamEvent::ContentBlockStart { index, block } => StreamEvent::ContentBlockStart {
            index: *index,
            block: match block {
                PartialBlock::Text => PartialBlock::Text,
                PartialBlock::Thinking => PartialBlock::Thinking,
                PartialBlock::ToolUse { id, name, thought_signature } => PartialBlock::ToolUse {
                    id: id.clone(),
                    name: name.clone(),
                    thought_signature: clone_opt_string(thought_signature),
                },
            },
        },
        StreamEvent::TextDelta { index, text } => StreamEvent::TextDelta { index: *index, text: text.clone() },
        StreamEvent::ThinkingDelta { index, text } => StreamEvent::ThinkingDelta { index: *index, text: text.clone() },
        StreamEvent::ThinkingSignature { index, signature } => StreamEvent::ThinkingSignature {
            index: *index,
            signature: signature.clone(),
        },
        StreamEvent::ToolInputDelta { index, partial_json } => StreamEvent::ToolInputDelta {
            index: *index,
            partial_json: partial_json.clone(),
        },
        StreamEvent::ContentBlockDone { index } => StreamEvent::ContentBlockDone { index: *index },
        StreamEvent::Done { stop_reason, input_tokens, output_tokens } => StreamEvent::Done {
            stop_reason: clone_stop_reason(stop_reason),
            input_tokens: *input_tokens,
            output_tokens: *output_tokens,
        },
    }
}

/// The error for a stream that ends before its `Done` event.
pub fn missing_done_error() -> (e: LlmError)
    ensures
        e.deep_view() == ErrorModel::ParseError("stream ended without a Done event"@),
{
    LlmError::ParseError(String::from_str("stream ended without a Done event"))
}

/// Collects a stream of items into the finished reply (see `collect_spec`): the first error
/// item is returned as is, the reply is assembled at the first `Done` from the closed blocks in
/// index order, and a stream that ends before `Done` is a parse error.
pub fn collect_stream(items: &Vec<Result<StreamEvent, LlmError>>) -> (r: Result<LlmResponse, LlmError>)
    ensures
        outcome_model(r) == collect_spec(items_model(items@)),
{
    let ghost all = items_model(items@);
    let mut c = StreamCollector::new();
    let n = items.len();
    let mut i: usize = 0;
    assert(all.skip(0) =~= all);
    while i < n
        invariant
            n == items.len(),
            all == items_model(items@),
            i <= n,
            collect_from(c.model(), all.skip(i as int)) == collect_spec(all),
        decreases n - i,
    {
        proof {
            assert(all.skip(i as int)[0] == all[i as int]);
            assert(all.skip(i as int).drop_first() =~= all.skip(i as int + 1));
        }
        match &items[i] {
            Err(e) => {
                return Err(clone_error(e));
            },
            Ok(ev) => {
                let ev = clone_event(ev);
                match c.step(ev) {
                    Some(r) => {
                        return r;
                    },
                    None => {},
                }
            },
        }
        i = i + 1;
    }
    proof {
        assert(all.skip(n as int) =~= Seq::<Result<EventModel, ErrorModel>>::empty());
    }
    Err(missing_done_error())
}


/// A block that a finished reply can carry and that replays back into itself: not a tool result
/// (a provider's own reply never holds one), and for a tool call, non-empty JSON input text.
pub open spec fn replayable(b: BlockModel) -> bool {
    match b {
        BlockModel::ToolResult { .. } => false,
        BlockModel::ToolUse { input, .. } => input.len() > 0 && json_syntax_error(input) is None,
        _ => true,
    }
}

/// The state after the first `j` blocks of `c` have been replayed and closed.
pub open spec fn prefix_state(c: Seq<BlockModel>, j: nat) -> CollectModel {
    CollectModel {
        pending: Map::empty(),
        finished: Map::new(|k: usize| k < j, |k: usize| c[k as int]),
    }
}

proof fn lemma_collect_unfold(st: CollectModel, ev: EventModel, rest: Seq<Result<EventModel, ErrorModel>>)
    requires
        collect_step(st, ev).1 is None,
    ensures
        collect_from(st, seq![Ok(ev)] + rest) == collect_from(collect_step(st, ev).0, rest),
{
    let items = seq![Ok::<EventModel, ErrorModel>(ev)] + rest;
    assert(items[0] == Ok::<EventModel, ErrorModel>(ev));
    assert(items.drop_first() =~= rest);
}

proof fn lemma_block_step(c: Seq<BlockModel>, j: nat, rest: Seq<Result<EventModel, ErrorModel>>)
    requires
        j < c.len(),
        c.len() <= usize::MAX,
        replayable(c[j as int]),
    ensures
        collect_from(prefix_state(c, j), all_ok(block_events(j as usize, c[j as int])) + rest)
            == collect_from(prefix_state(c, j + 1), rest),
{
    let st0 = prefix_state(c, j);
    let st_end = prefix_state(c, j + 1);
    let idx = j as usize;
    let evs = block_events(idx, c[j as int]);
    assert(st0.finished.insert(idx, c[j as int]) =~= st_end.finished);
    match c[j as int] {
        BlockModel::Text { text } => {
            let e0 = evs[0];
            let e1 = evs[1];
            let e2 = evs[2];
            assert(all_ok(evs) + rest =~= seq![Ok(e0)] + (seq![Ok(e1)] + (seq![Ok(e2)] + rest)));
            let st1 = collect_step(st0, e0).0;
            lemma_collect_unfold(st0, e0, seq![Ok(e1)] + (seq![Ok(e2)] + rest));
            let st2 = collect_step(st1, e1).0;
            assert(Seq::<char>::empty() + text =~= text);
            lemma_collect_unfold(st1, e1, seq![Ok(e2)] + rest);
            lemma_collect_unfold(st2, e2, rest);
            assert(collect_step(st2, e2).0 =~= st_end);
        },
        BlockModel::ToolUse { id, name, input, thought_signature } => {
            let e0 = evs[0];
            let e1 = evs[1];
            let e2 = evs[2];
            assert(all_ok(evs) + rest =~= seq![Ok(e0)] + (seq![Ok(e1)] + (seq![Ok(e2)] + rest)));
            let st1 = collect_step(st0, e0).0;
            lemma_collect_unfold(st0, e0, seq![Ok(e1)] + (seq![Ok(e2)] + rest));
            let st2 = collect_step(st1, e1).0;
            assert(Seq::<char>::empty() + input =~= input);
            lemma_collect_unfold(st1, e1, seq![Ok(e2)] + rest);
            lemma_collect_unfold(st2, e2, rest);
            assert(collect_step(st2, e2).0 =~= st_end);
        },
        BlockModel::ToolResult { .. } => {},
        BlockModel::Thinking { text, signature } => {
            assert(Seq::<char>::empty() + text =~= text);
            match signature {
                Some(sig) => {
                    let e0 = evs[0];
                    let e1 = evs[1];
                    let e2 = evs[2];
                    let e3 = evs[3];
                    assert(all_ok(evs) + rest =~= seq![Ok(e0)] + (seq![Ok(e1)] + (seq![Ok(e2)] + (seq![Ok(e3)] + rest))));
                    let st1 = collect_step(st0, e0).0;
                    lemma_collect_unfold(st0, e0, seq![Ok(e1)] + (seq![Ok(e2)] + (seq![Ok(e3)] + rest)));
                    let st2 = collect_step(st1, e1).0;
                    lemma_collect_unfold(st1, e1, seq![Ok(e2)] + (seq![Ok(e3)] + rest));
                    let st3 = collect_step(st2, e2).0;
                    lemma_collect_unfold(st2, e2, seq![Ok(e3)] + rest);
                    lemma_collect_unfold(st3, e3, rest);
                    assert(collect_step(st3, e3).0 =~= st_end);
                },
                None => {
                    let e0 = evs[0];
                    let e1 = evs[1];
                    let e2 = evs[2];
                    assert(all_ok(evs) + rest =~= seq![Ok(e0)] + (seq![Ok(e1)] + (seq![Ok(e2)] + rest)));
                    let st1 = collect_step(st0, e0).0;
                    lemma_collect_unfold(st0, e0, seq![Ok(e1)] + (seq![Ok(e2)] + rest));
                    let st2 = collect_step(st1, e1).0;
                    lemma_collect_unfold(st1, e1, seq![Ok(e2)] + rest);
                    lemma_collect_unfold(st2, e2, rest);
                    assert(collect_step(st2, e2).0 =~= st_end);
                },
            }
        },
    }
}

proof fn lemma_blocks_prefix(c: Seq<BlockModel>, n: nat, rest: Seq<Result<EventModel, ErrorModel>>)
    requires
        n <= c.len(),
        c.len() <= usize::MAX,
        forall|i: int| 0 <= i < c.len() ==> replayable(#[trigger] c[i]),
    ensures
        collect_from(empty_collect(), all_ok(blocks_events(c, n)) + rest) == collect_from(prefix_state(c, n), rest),
    decreases n,
{
    if n == 0 {
        assert(all_ok(blocks_events(c, 0)) + rest =~= rest);
        assert(prefix_state(c, 0) =~= empty_collect());
    } else {
        let m = (n - 1) as nat;
        let evs = block_events(m as usize, c[m as int]);
        assert(all_ok(blocks_events(c, n)) + rest =~= all_ok(blocks_events(c, m)) + (all_ok(evs) + rest));
        lemma_blocks_prefix(c, m, all_ok(evs) + rest);
        lemma_block_step(c, m, rest);
    }
}

proof fn lemma_prefix_values(c: Seq<BlockModel>, t: nat)
    requires
        t <= c.len(),
        c.len() <= usize::MAX,
    ensures
        values_below(prefix_state(c, c.len()).finished, t) =~= c.take(t as int),
    decreases t,
{
    if t > 0 {
        lemma_prefix_values(c, (t - 1) as nat);
        assert(c.take(t as int) =~= c.take(t - 1).push(c[t - 1]));
    }
}

/// A finished reply replayed as a stream (`response_to_stream`) collects back into the very same
/// reply (`collect_stream`), whenever every block of it is `replayable`.
pub proof fn lemma_replayed_reply_collects_back(r: ResponseModel)
    requires
        r.content.len() <= usize::MAX,
        forall|i: int| 0 <= i < r.content.len() ==> replayable(#[trigger] r.content[i]),
    ensures
        collect_spec(all_ok(response_events(r))) == Ok::<ResponseModel, ErrorModel>(r),
{
    let c = r.content;
    let n = c.len();
    let done = EventModel::Done { stop_reason: r.stop_reason, input_tokens: r.input_tokens, output_tokens: r.output_tokens };
    let tail = seq![Ok::<EventModel, ErrorModel>(done)];
    assert(all_ok(response_events(r)) =~= all_ok(blocks_events(c, n)) + tail);
    lemma_blocks_prefix(c, n, tail);
    let st = prefix_state(c, n);
    assert(tail[0] == Ok::<EventModel, ErrorModel>(done));
    let fin = st.finished;
    lemma_prefix_values(c, n);
    assert forall|k: usize| n <= k < usize::MAX as nat + 1 implies !fin.contains_key(k) by {}
    lemma_values_below_gap(fin, n, usize::MAX as nat + 1);
    assert(c.take(n as int) =~= c);
    assert(ordered_values(fin) =~= c);
}


pub(crate) fn clone_blocks(v: &Vec<ContentBlock>) -> (r: Vec<ContentBlock>)
    ensures
        r@ == v@,
{
    let mut r: Vec<ContentBlock> = Vec::new();
    let mut i: usize = 0;
    while i < v.len()
        invariant
            i <= v.len(),
            r@ == v@.take(i as int),
        decreases v.len() - i,
    {
        r.push(clone_block(&v[i]));
        assert(v@.take(i as int + 1) =~= v@.take(i as int).push(v@[i as int]));
        i = i + 1;
    }
    assert(v@.take(v.len() as int) =~= v@);
    r
}

pub(crate) fn clone_tools(v: &Vec<ToolDefinition>) -> (r: Vec<ToolDefinition>)
    ensures
        r@ == v@,
{
    let mut r: Vec<ToolDefinition> = Vec::new();
    let mut i: usize = 0;
    while i < v.len()
        invariant
            i <= v.len(),
            r@ == v@.take(i as int),
        decreases v.len() - i,
    {
        let t = &v[i];
        r.push(ToolDefinition { name: t.name.clone(), description: t.description.clone(), input_schema: t.input_schema.clone() });
        assert(v@.take(i as int + 1) =~= v@.take(i as int).push(v@[i as int]));
        i = i + 1;
    }
    assert(v@.take(v.len() as int) =~= v@);
    r
}

/// The tools to send: none at all when the request offers none.
pub open spec fn offered_tools(tools: Seq<ToolDefinition>) -> Option<Seq<ToolDefinition>> {
    if tools.len() == 0 { None } else { Some(tools) }
}

pub(crate) fn offered(tools: &Vec<ToolDefinition>) -> (r: Option<Vec<ToolDefinition>>)
    ensures
        match r {
            Some(v) => offered_tools(tools@) == Some(v@),
            None => offered_tools(tools@) is None,
        },
{
    if tools.len() == 0 { None } else { Some(clone_tools(tools)) }
}

} // verus!

verus! {

/// The values of `m` under the keys below `n`, in ascending key order.
pub open spec fn values_below<V>(m: Map<usize, V>, n: nat) -> Seq<V>
    decreases n,
{
    if n == 0 {
        Seq::empty()
    } else {
        values_below(m, (n - 1) as nat) + if m.contains_key((n - 1) as usize) {
            seq![m[(n - 1) as usize]]
        } else {
            Seq::empty()
        }
    }
}

/// All values of `m`, in ascending key order.
pub open spec fn ordered_values<V>(m: Map<usize, V>) -> Seq<V> {
    values_below(m, usize::MAX as nat + 1)
}

pub proof fn lemma_values_below_agree<V>(m1: Map<usize, V>, m2: Map<usize, V>, n: nat)
    requires
        n <= usize::MAX as nat + 1,
        forall|k: usize| k < n ==> (m1.contains_key(k) <==> m2.contains_key(k)),
        forall|k: usize| k < n && m1.contains_key(k) ==> m1[k] == m2[k],
    ensures
        values_below(m1, n) == values_below(m2, n),
    decreases n,
{
    if n > 0 {
        lemma_values_below_agree(m1, m2, (n - 1) as nat);
    }
}

pub proof fn lemma_values_below_gap<V>(m: Map<usize, V>, a: nat, n: nat)
    requires
        a <= n <= usize::MAX as nat + 1,
        forall|k: usize| a <= k < n ==> !m.contains_key(k),
    ensures
        values_below(m, n) == values_below(m, a),
    decreases n,
{
    if n > a {
        lemma_values_below_gap(m, a, (n - 1) as nat);
        assert(!m.contains_key((n - 1) as usize));
        assert(values_below(m, n) =~= values_below(m, (n - 1) as nat));
    }
}

/// Listing a map's keys in increasing order lists its values in ascending key order.
pub proof fn lemma_ordered_values_by_keys<V>(m: Map<usize, V>, ks: Seq<usize>)
    requires
        forall|i: int, j: int| 0 <= i < j < ks.len() ==> ks[i] < ks[j],
        forall|i: int| 0 <= i < ks.len() ==> m.contains_key(#[trigger] ks[i]),
        forall|k: usize| #[trigger] m.contains_key(k) ==> ks.contains(k),
    ensures
        ordered_values(m) == ks.map_values(|k: usize| m[k]),
    decreases ks.len(),
{
    let top = usize::MAX as nat + 1;
    if ks.len() == 0 {
        assert forall|k: usize| 0 <= k < top implies !m.contains_key(k) by {
            if m.contains_key(k) {
                assert(ks.contains(k));
            }
        }
        lemma_values_below_gap(m, 0, top);
        assert(ks.map_values(|k: usize| m[k]) =~= Seq::<V>::empty());
    } else {
        let last = ks.len() - 1;
        let kk = ks[last];
        let ks1 = ks.drop_last();
        let m1 = m.remove(kk);
        assert forall|i: int| 0 <= i < ks1.len() implies m1.contains_key(#[trigger] ks1[i]) by {
            assert(ks1[i] == ks[i]);
            assert(ks[i] < ks[last]);
        }
        assert forall|k: usize| #[trigger] m1.contains_key(k) implies ks1.contains(k) by {
            assert(ks.contains(k));
            let i = choose|i: int| 0 <= i < ks.len() && ks[i] == k;
            assert(i != last);
            assert(ks1[i] == k);
        }
        lemma_ordered_values_by_keys(m1, ks1);
        assert forall|k: usize| kk + 1 <= k < top implies !m.contains_key(k) by {
            if m.contains_key(k) {
                assert(ks.contains(k));
                let i = choose|i: int| 0 <= i < ks.len() && ks[i] == k;
                if i < last {
                    assert(ks[i] < ks[last]);
                }
            }
        }
        lemma_values_below_gap(m, (kk + 1) as nat, top);
        assert forall|k: usize| kk <= k < top implies !m1.contains_key(k) by {
            if m1.contains_key(k) {
                assert(ks.contains(k));
                let i = choose|i: int| 0 <= i < ks.len() && ks[i] == k;
                if i < last {
                    assert(ks[i] < ks[last]);
                }
            }
        }
        lemma_values_below_gap(m1, kk as nat, top);
        lemma_values_below_agree(m, m1, kk as nat);
        assert(values_below(m, (kk + 1) as nat) == values_below(m, kk as nat) + seq![m[kk]]);
        let a = ks1.map_values(|k: usize| m1[k]);
        let b = ks.map_values(|k: usize| m[k]);
        assert forall|i: int| 0 <= i < a.len() implies #[trigger] a[i] == b[i] by {
            assert(ks1[i] == ks[i]);
            assert(ks[i] < ks[last]);
        }
        assert(b =~= a.push(m[kk]));
    }
}

} // verus!
