use vstd::prelude::*;

use crate::llm::types::{ErrorModel, EventModel, LlmError, StopModel, StopReason, StreamEvent};
use crate::text::join2;

verus! {

/// How a provider's stream goes on after one of its frames.
#[derive(Debug)]
pub enum StepEnd {
    /// More frames follow.
    Continue,
    /// The frame completed the reply; the stream ends.
    Finished,
    /// The frame ended the stream with an error.
    Failed(LlmError),
}

/// The events one frame yields, and how the stream goes on.
#[derive(Debug)]
pub struct StepOutput {
    pub events: Vec<StreamEvent>,
    pub end: StepEnd,
}

pub enum EndModel {
    Continue,
    Finished,
    Failed(ErrorModel),
}

pub struct StepModel {
    pub events: Seq<EventModel>,
    pub end: EndModel,
}

impl DeepView for StepOutput {
    type V = StepModel;

    open spec fn deep_view(&self) -> StepModel {
        StepModel {
            events: self.events.deep_view(),
            end: match &self.end {
                StepEnd::Continue => EndModel::Continue,
                StepEnd::Finished => EndModel::Finished,
                StepEnd::Failed(e) => EndModel::Failed(e.deep_view()),
            },
        }
    }
}

pub open spec fn go_on(events: Seq<EventModel>) -> StepModel {
    StepModel { events, end: EndModel::Continue }
}

pub open spec fn finish_with(events: Seq<EventModel>) -> StepModel {
    StepModel { events, end: EndModel::Finished }
}

pub open spec fn fail_with(e: ErrorModel) -> StepModel {
    StepModel { events: Seq::empty(), end: EndModel::Failed(e) }
}

/// The error for a frame whose data is not JSON: `invalid <event> json: <parser message>`.
pub open spec fn invalid_json_error(what: Seq<char>, msg: Seq<char>) -> ErrorModel {
    ErrorModel::ParseError("invalid "@ + what + " json: "@ + msg)
}

pub fn invalid_json(what: &str, msg: &str) -> (e: LlmError)
    ensures
        e.deep_view() == invalid_json_error(what@, msg@),
{
    let mut s = String::from_str("invalid ");
    s.append(what);
    s.append(" json: ");
    s.append(msg);
    LlmError::ParseError(s)
}

/// Whether an HTTP status code reports success: one in the 2xx range, as
/// `StatusCode::is_success` tells.
pub fn is_success_status(code: u16) -> (r: bool)
    ensures
        r == (200 <= code < 300),
{
    200 <= code && code < 300
}

/// What a provider's refusal of a request says: who refused, the status (code and reason, as
/// the status shows itself) and the body of the answer.
pub open spec fn status_error_text(provider: Seq<char>, status: Seq<char>, body: Seq<char>) -> Seq<char> {
    provider + " returned "@ + status + ": "@ + body
}

/// The error for an answer whose status is not a success.
pub fn status_error(provider: &str, status: &str, body: &str) -> (e: LlmError)
    ensures
        e.deep_view() == ErrorModel::ProviderError(status_error_text(provider@, status@, body@)),
{
    let a = join2(provider, " returned ");
    let b = join2(a.as_str(), status);
    let c = join2(b.as_str(), ": ");
    LlmError::ProviderError(join2(c.as_str(), body))
}

/// The error for a failure of the event-stream transport itself.
pub fn transport_error(msg: &str) -> (e: LlmError)
    ensures
        e.deep_view() == ErrorModel::ParseError("sse stream error: "@ + msg@),
{
    LlmError::ParseError(join2("sse stream error: ", msg))
}

pub fn parse_error(msg: &str) -> (e: LlmError)
    ensures
        e.deep_view() == ErrorModel::ParseError(msg@),
{
    LlmError::ParseError(String::from_str(msg))
}

pub fn go_on_with(events: Vec<StreamEvent>) -> (o: StepOutput)
    ensures
        o.deep_view() == go_on(events.deep_view()),
{
    StepOutput { events, end: StepEnd::Continue }
}

pub fn nothing() -> (o: StepOutput)
    ensures
        o.deep_view() == go_on(Seq::empty()),
{
    let v: Vec<StreamEvent> = Vec::new();
    assert(v.deep_view() =~= Seq::<EventModel>::empty());
    StepOutput { events: v, end: StepEnd::Continue }
}

pub fn one(e: StreamEvent) -> (o: StepOutput)
    ensures
        o.deep_view() == go_on(seq![e.deep_view()]),
{
    let mut v: Vec<StreamEvent> = Vec::new();
    v.push(e);
    assert(v.deep_view() =~= seq![e.deep_view()]);
    StepOutput { events: v, end: StepEnd::Continue }
}

pub fn fail(e: LlmError) -> (o: StepOutput)
    ensures
        o.deep_view() == fail_with(e.deep_view()),
{
    let v: Vec<StreamEvent> = Vec::new();
    assert(v.deep_view() =~= Seq::<EventModel>::empty());
    StepOutput { events: v, end: StepEnd::Failed(e) }
}

/// An owned `StopReason::Other` with the given text.
pub fn other_reason(s: &str) -> (r: StopReason)
    ensures
        r.deep_view() == StopModel::Other(s@),
{
    StopReason::Other(String::from_str(s))
}

} // verus!
