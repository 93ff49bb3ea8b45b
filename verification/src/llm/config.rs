use vstd::prelude::*;

use crate::llm::types::{ContentBlock, LlmError, LlmMessage, LlmRequest, LlmRole, ErrorModel};
use crate::text::clone_opt;

verus! {

/// Which model provider a configuration talks to.
#[derive(Debug, Clone, Copy, PartialEq, Eq)]
pub enum ProviderKind {
    Anthropic,
    OpenAi,
    OpenRouter,
    Gemini,
    Fake,
}

/// Everything needed to talk to one model.
#[derive(Debug, Clone)]
pub struct ModelConfig {
    pub provider: ProviderKind,
    pub model_id: String,
    pub api_key: String,
    pub base_url: Option<String>,
}

/// A model a provider offers, as its model-listing API reports it.
#[derive(Debug, Clone, PartialEq)]
pub struct ModelSummary {
    pub id: String,
    pub label: Option<String>,
}

/// Where each provider lives unless configured otherwise; the fake provider lives nowhere.
pub open spec fn default_base_url_of(p: ProviderKind) -> Seq<char> {
    match p {
        ProviderKind::Anthropic => "https://api.anthropic.com"@,
        ProviderKind::OpenAi => "https://api.openai.com"@,
        ProviderKind::OpenRouter => "https://openrouter.ai/api"@,
        ProviderKind::Gemini => "https://generativelanguage.googleapis.com"@,
        ProviderKind::Fake => Seq::empty(),
    }
}

pub fn default_base_url(p: ProviderKind) -> (r: String)
    ensures
        r@ == default_base_url_of(p),
{
    match p {
        ProviderKind::Anthropic => crate::llm::anthropic::default_base_url(),
        ProviderKind::OpenAi => crate::llm::openai::default_base_url(),
        ProviderKind::OpenRouter => String::from_str("https://openrouter.ai/api"),
        ProviderKind::Gemini => crate::llm::gemini::default_base_url(),
        ProviderKind::Fake => String::new(),
    }
}

/// The base URL a configuration talks to: its own, or its provider's default.
pub fn base_url_for(config: &ModelConfig) -> (r: String)
    ensures
        r@ == match config.base_url {
            Some(u) => u@,
            None => default_base_url_of(config.provider),
        },
{
    match &config.base_url {
        Some(u) => u.clone(),
        None => default_base_url(config.provider),
    }
}

/// What the fake provider reports as its models.
pub fn fake_models() -> (r: Vec<ModelSummary>)
    ensures
        r.len() == 1,
        r@[0].id@ == "fake-model"@,
        r@[0].label.deep_view() == Some("Fake Model (dev/testing)"@),
{
    let mut r: Vec<ModelSummary> = Vec::new();
    r.push(ModelSummary {
        id: String::from_str("fake-model"),
        label: Some(String::from_str("Fake Model (dev/testing)")),
    });
    r
}

/// One entry of a model-listing reply's `data` array: its `id` and `display_name` strings.
#[derive(Debug, Clone)]
pub struct ModelEntry {
    pub id: Option<String>,
    pub display_name: Option<String>,
}

/// The models a listing reply names, in order: every entry with an id; the display name is the
/// label when `labelled` (Anthropic reports one, OpenAI does not).
pub open spec fn listed_models(entries: Seq<ModelEntry>, n: nat, labelled: bool) -> Seq<(Seq<char>, Option<Seq<char>>)>
    decreases n,
{
    if n == 0 {
        Seq::empty()
    } else {
        listed_models(entries, (n - 1) as nat, labelled) + match entries[n - 1].id {
            Some(id) => seq![(id@, if labelled { entries[n - 1].display_name.deep_view() } else { None })],
            None => Seq::empty(),
        }
    }
}

pub open spec fn summary_view(m: ModelSummary) -> (Seq<char>, Option<Seq<char>>) {
    (m.id@, m.label.deep_view())
}

/// Reads a model-listing reply. `data` is absent when the reply has no `data` array.
pub fn models_from_listing(data: Option<Vec<ModelEntry>>, labelled: bool) -> (r: Result<Vec<ModelSummary>, LlmError>)
    ensures
        match data {
            None => r matches Err(e) && e.deep_view() == ErrorModel::ParseError("missing data"@),
            Some(entries) => r matches Ok(ms)
                && ms@.map_values(|m: ModelSummary| summary_view(m)) == listed_models(entries@, entries.len() as nat, labelled),
        },
{
    match data {
        None => Err(LlmError::ParseError(String::from_str("missing data"))),
        Some(entries) => {
            let mut ms: Vec<ModelSummary> = Vec::new();
            let mut i: usize = 0;
            while i < entries.len()
                invariant
                    i <= entries.len(),
                    ms@.map_values(|m: ModelSummary| summary_view(m)) == listed_models(entries@, i as nat, labelled),
                decreases entries.len() - i,
            {
                let ghost before = ms@;
                match &entries[i].id {
                    Some(id) => {
                        let label = if labelled { clone_opt(&entries[i].display_name) } else { None };
                        ms.push(ModelSummary { id: id.clone(), label });
                        assert(ms@ == before.push(ms@[before.len() as int]));
                    },
                    None => {},
                }
                assert(ms@.map_values(|m: ModelSummary| summary_view(m)) =~= listed_models(entries@, i as nat + 1, labelled));
                i = i + 1;
            }
            Ok(ms)
        },
    }
}

/// The minimal request that proves a configuration works before it is saved.
pub fn validation_request() -> (r: LlmRequest)
    ensures
        r.system is None,
        r.tools@.len() == 0,
        r.max_tokens == 8,
        !r.enable_reasoning,
        r.messages@.len() == 1,
        r.messages@[0].role == LlmRole::User,
        r.messages@[0].content@.len() == 1,
        r.messages@[0].content@[0].deep_view() == (crate::llm::types::BlockModel::Text { text: "Hi"@ }),
{
    let mut content: Vec<ContentBlock> = Vec::new();
    content.push(ContentBlock::Text { text: String::from_str("Hi") });
    let mut messages: Vec<LlmMessage> = Vec::new();
    messages.push(LlmMessage { role: LlmRole::User, content });
    LlmRequest { system: None, messages, tools: Vec::new(), max_tokens: 8, enable_reasoning: false }
}

} // verus!
