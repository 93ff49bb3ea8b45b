use vstd::prelude::*;

use crate::llm::stream::{all_ok, response_events, response_to_stream};
use crate::llm::types::{
    items_model, BlockModel, ContentBlock, ErrorModel, LlmError, LlmMessage, LlmRequest, LlmResponse, ResponseModel,
    StopModel, StopReason, StreamEvent,
};
use crate::text::{contains_str, has_infix};

verus! {

/// Text that makes the fake provider fail instead of replying, to exercise failure handling.
pub const SIMULATE_FAILURE_SENTINEL: &'static str = "__SIMULATE_TURN_FAILURE__";

/// Whether a block is text that mentions the failure sentinel.
pub open spec fn failure_text(b: ContentBlock) -> bool {
    match b {
        ContentBlock::Text { text } => has_infix(text@, "__SIMULATE_TURN_FAILURE__"@),
        _ => false,
    }
}

/// Whether some text block of the messages mentions the failure sentinel.
pub open spec fn asks_for_failure(ms: Seq<LlmMessage>) -> bool {
    exists|i: int, j: int| 0 <= i < ms.len() && 0 <= j < ms[i].content@.len() && failure_text(#[trigger] ms[i].content@[j])
}

/// The fake provider's canned reply: a reasoning trace when asked for one, then a fixed text.
pub open spec fn fake_response(enable_reasoning: bool) -> ResponseModel {
    let text = BlockModel::Text { text: "This is a fake response for local development and testing."@ };
    ResponseModel {
        content: if enable_reasoning {
            seq![BlockModel::Thinking { text: "Thinking through a fake response for local development and testing."@, signature: None }, text]
        } else {
            seq![text]
        },
        stop_reason: StopModel::EndTurn,
        input_tokens: 0,
        output_tokens: 0,
    }
}

fn mentions_sentinel(ms: &Vec<LlmMessage>) -> (r: bool)
    ensures
        r == asks_for_failure(ms@),
{
    let mut i: usize = 0;
    while i < ms.len()
        invariant
            i <= ms.len(),
            forall|a: int, b: int| 0 <= a < i && 0 <= b < ms@[a].content@.len() ==> !failure_text(#[trigger] ms@[a].content@[b]),
        decreases ms.len() - i,
    {
        let blocks = &ms[i].content;
        let mut j: usize = 0;
        while j < blocks.len()
            invariant
                i < ms.len(),
                blocks == ms@[i as int].content,
                j <= blocks.len(),
                forall|b: int| 0 <= b < j ==> !failure_text(#[trigger] blocks@[b]),
            decreases blocks.len() - j,
        {
            match &blocks[j] {
                ContentBlock::Text { text } => {
                    if contains_str(text.as_str(), SIMULATE_FAILURE_SENTINEL) {
                        assert(failure_text(ms@[i as int].content@[j as int]));
                        return true;
                    }
                },
                _ => {},
            }
            j = j + 1;
        }
        i = i + 1;
    }
    false
}

/// What the fake provider streams for a request: a simulated provider error when a text block
/// mentions `SIMULATE_FAILURE_SENTINEL`, otherwise its canned reply as a stream.
pub fn fake_complete_stream(request: &LlmRequest) -> (r: Result<Vec<Result<StreamEvent, LlmError>>, LlmError>)
    ensures
        match r {
            Err(e) => asks_for_failure(request.messages@)
                && e.deep_view() == ErrorModel::ProviderError("simulated failure for e2e testing"@),
            Ok(items) => !asks_for_failure(request.messages@)
                && items_model(items@) == all_ok(response_events(fake_response(request.enable_reasoning))),
        },
{
    if mentions_sentinel(&request.messages) {
        return Err(LlmError::ProviderError(String::from_str("simulated failure for e2e testing")));
    }
    let mut content: Vec<ContentBlock> = Vec::new();
    if request.enable_reasoning {
        content.push(ContentBlock::Thinking {
            text: String::from_str("Thinking through a fake response for local development and testing."),
            signature: None,
        });
    }
    content.push(ContentBlock::Text { text: String::from_str("This is a fake response for local development and testing.") });
    let response = LlmResponse { content, stop_reason: StopReason::EndTurn, input_tokens: 0, output_tokens: 0 };
    assert(response.deep_view().content =~= fake_response(request.enable_reasoning).content);
    Ok(response_to_stream(&response))
}

} // verus!
