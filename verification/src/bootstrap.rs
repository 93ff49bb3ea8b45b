use vstd::prelude::*;

use crate::llm::config::{ModelConfig, ProviderKind};
use crate::settings::crypto::{decrypt, decrypted_text};
use crate::routes::llm_models::provider_kind_from_str;
use crate::text::{join2, str_eq};

verus! {

/// The model provider a stored name stands for: one of the four the server lets an
/// administrator or user choose.
pub open spec fn provider_named(s: Seq<char>) -> Option<ProviderKind> {
    if s == "anthropic"@ {
        Some(ProviderKind::Anthropic)
    } else if s == "openai"@ {
        Some(ProviderKind::OpenAi)
    } else if s == "gemini"@ {
        Some(ProviderKind::Gemini)
    } else if s == "fake"@ {
        Some(ProviderKind::Fake)
    } else {
        None
    }
}

/// Reads a provider name that validation has already let through.
pub fn llm_provider_kind_from_str(s: &str) -> (r: ProviderKind)
    requires
        provider_named(s@) is Some,
    ensures
        provider_named(s@) == Some(r),
{
    proof {
        reveal_strlit("anthropic");
        reveal_strlit("openai");
        reveal_strlit("gemini");
        reveal_strlit("fake");
    }
    if str_eq(s, "anthropic") {
        ProviderKind::Anthropic
    } else if str_eq(s, "openai") {
        ProviderKind::OpenAi
    } else if str_eq(s, "gemini") {
        ProviderKind::Gemini
    } else {
        ProviderKind::Fake
    }
}

/// Who computes embeddings.
#[derive(Debug, Clone, Copy, PartialEq, Eq)]
pub enum EmbeddingProviderKind {
    OpenAi,
    Gemini,
    Cohere,
    Fake,
}

/// The embedding provider a name stands for.
pub open spec fn embedding_provider_named(s: Seq<char>) -> Option<EmbeddingProviderKind> {
    if s == "openai"@ {
        Some(EmbeddingProviderKind::OpenAi)
    } else if s == "gemini"@ {
        Some(EmbeddingProviderKind::Gemini)
    } else if s == "cohere"@ {
        Some(EmbeddingProviderKind::Cohere)
    } else if s == "fake"@ {
        Some(EmbeddingProviderKind::Fake)
    } else {
        None
    }
}

/// The complaint about an embedding provider name nobody knows.
pub open spec fn unknown_embedding_provider_message(s: Seq<char>) -> Seq<char> {
    "unknown embedding provider: "@ + s + " (expected openai, gemini, cohere, or fake)"@
}

/// Reads an embedding provider name.
pub fn embedding_provider_kind_from_str(s: &str) -> (r: Result<EmbeddingProviderKind, String>)
    ensures
        match embedding_provider_named(s@) {
            Some(k) => r == Ok::<EmbeddingProviderKind, String>(k),
            None => r matches Err(e) && e@ == unknown_embedding_provider_message(s@),
        },
{
    proof {
        reveal_strlit("openai");
        reveal_strlit("gemini");
        reveal_strlit("cohere");
        reveal_strlit("fake");
    }
    if str_eq(s, "openai") {
        Ok(EmbeddingProviderKind::OpenAi)
    } else if str_eq(s, "gemini") {
        Ok(EmbeddingProviderKind::Gemini)
    } else if str_eq(s, "cohere") {
        Ok(EmbeddingProviderKind::Cohere)
    } else if str_eq(s, "fake") {
        Ok(EmbeddingProviderKind::Fake)
    } else {
        let head = join2("unknown embedding provider: ", s);
        Err(join2(head.as_str(), " (expected openai, gemini, cohere, or fake)"))
    }
}

/// A model an administrator configured. Its API key is stored encrypted.
#[derive(Debug, Clone)]
pub struct AdminLlmModel {
    pub id: u128,
    pub label: String,
    pub provider: String,
    pub model_id: String,
    pub api_key_encrypted: Vec<u8>,
    pub base_url: Option<String>,
    pub is_default: bool,
}

/// A user's model choice: an administrator's model, or a model of their own with their own
/// (encrypted) key.
#[derive(Debug, Clone)]
pub struct UserLlmSelectionRow {
    pub admin_model_id: Option<u128>,
    pub custom_label: Option<String>,
    pub custom_provider: Option<String>,
    pub custom_model_id: Option<String>,
    pub custom_api_key_encrypted: Option<Vec<u8>>,
    pub custom_base_url: Option<String>,
}

impl UserLlmSelectionRow {
    /// What saving a selection guarantees, as far as resolving it under `key` relies on it: a
    /// choice of one's own carries a key, and when that key decrypts, a known provider and a
    /// model.
    pub open spec fn well_formed(self, key: Seq<u8>) -> bool {
        self.admin_model_id is None ==> (self.custom_provider matches Some(p) ==> {
            &&& self.custom_api_key_encrypted is Some
            &&& decrypted_text(key, self.custom_api_key_encrypted.unwrap()@) is Some ==> {
                &&& provider_named(p@) is Some
                &&& self.custom_model_id is Some
            }
        })
    }
}

/// An administrator's model whose key decrypts under `key` names a known provider.
pub open spec fn model_usable(key: Seq<u8>, m: AdminLlmModel) -> bool {
    decrypted_text(key, m.api_key_encrypted@) is Some ==> provider_named(m.provider@) is Some
}

/// Whether a stored selection can be resolved under `key` (see `well_formed`), as a caller
/// tests it before handing the row on.
pub fn selection_usable(key: &[u8; 32], row: &UserLlmSelectionRow) -> (r: bool)
    ensures
        r == row.well_formed(key@),
{
    if row.admin_model_id.is_some() {
        return true;
    }
    match &row.custom_provider {
        None => true,
        Some(p) => match &row.custom_api_key_encrypted {
            None => false,
            Some(b) => match decrypt(key, b.as_slice()) {
                Ok(_) => provider_kind_from_str(p.as_str()).is_some() && row.custom_model_id.is_some(),
                Err(_) => true,
            },
        },
    }
}

/// Whether an administrator's model can be configured under `key` (see `model_usable`), as a
/// caller tests it before handing the row on.
pub fn model_usable_check(key: &[u8; 32], m: &AdminLlmModel) -> (r: bool)
    ensures
        r == model_usable(key@, *m),
{
    match decrypt(key, m.api_key_encrypted.as_slice()) {
        Ok(_) => provider_kind_from_str(m.provider.as_str()).is_some(),
        Err(_) => true,
    }
}

/// `c` talks to `provider`'s model `model_id` with `api_key` at `base_url`.
pub open spec fn is_config(
    c: ModelConfig,
    provider: ProviderKind,
    model_id: Seq<char>,
    api_key: Seq<char>,
    base_url: Option<Seq<char>>,
) -> bool {
    &&& c.provider == provider
    &&& c.model_id@ == model_id
    &&& c.api_key@ == api_key
    &&& c.base_url.deep_view() == base_url
}

/// What an administrator's model row gives under `key`: its configuration with the decrypted
/// key, or nothing when the key does not decrypt.
pub open spec fn admin_model_gives(key: Seq<u8>, m: AdminLlmModel, c: Option<ModelConfig>) -> bool {
    match decrypted_text(key, m.api_key_encrypted@) {
        Some(k) => c matches Some(x) && is_config(
            x,
            provider_named(m.provider@).unwrap(),
            m.model_id@,
            k,
            m.base_url.deep_view(),
        ),
        None => c is None,
    }
}

/// The configuration of an administrator's model, when its stored key decrypts under `key`.
pub fn model_config_from_admin_model(key: &[u8; 32], model: AdminLlmModel) -> (r: Option<ModelConfig>)
    requires
        model_usable(key@, model),
    ensures
        admin_model_gives(key@, model, r),
{
    match decrypt(key, model.api_key_encrypted.as_slice()) {
        Ok(api_key) => Some(
            ModelConfig {
                provider: llm_provider_kind_from_str(model.provider.as_str()),
                model_id: model.model_id,
                api_key,
                base_url: model.base_url,
            },
        ),
        Err(_) => None,
    }
}

/// Where resolving a user's model configuration goes next.
#[derive(Debug, Clone)]
pub enum LlmConfigStep {
    /// Load the administrator's model with this id and hand it to `after_selected_model`.
    LookUpModel(u128),
    /// Load the default administrator's model and hand it to `after_default_model`.
    LookUpDefault,
    /// Nothing stored works: read the configuration from the environment.
    FromEnvironment,
    /// The configuration to use.
    Resolved(ModelConfig),
}

/// The first step, from the user's stored selection: an administrator's model is looked up; a
/// model of their own is used when its key decrypts; anything else falls back to the default.
pub fn after_selection(key: &[u8; 32], selection: Option<UserLlmSelectionRow>) -> (s: LlmConfigStep)
    requires
        selection matches Some(row) ==> row.well_formed(key@),
    ensures
        match selection {
            Some(row) => match row.admin_model_id {
                Some(id) => s == LlmConfigStep::LookUpModel(id),
                None => match row.custom_provider {
                    Some(p) => match decrypted_text(key@, row.custom_api_key_encrypted.unwrap()@) {
                        Some(k) => s matches LlmConfigStep::Resolved(c) && is_config(
                            c,
                            provider_named(p@).unwrap(),
                            row.custom_model_id.unwrap()@,
                            k,
                            row.custom_base_url.deep_view(),
                        ),
                        None => s is LookUpDefault,
                    },
                    None => s is LookUpDefault,
                },
            },
            None => s is LookUpDefault,
        },
{
    match selection {
        Some(row) => match row.admin_model_id {
            Some(id) => LlmConfigStep::LookUpModel(id),
            None => match row.custom_provider {
                Some(provider) => {
                    let encrypted = row.custom_api_key_encrypted.unwrap();
                    match decrypt(key, encrypted.as_slice()) {
                        Ok(api_key) => LlmConfigStep::Resolved(
                            ModelConfig {
                                provider: llm_provider_kind_from_str(provider.as_str()),
                                model_id: row.custom_model_id.unwrap(),
                                api_key,
                                base_url: row.custom_base_url,
                            },
                        ),
                        Err(_) => LlmConfigStep::LookUpDefault,
                    }
                },
                None => LlmConfigStep::LookUpDefault,
            },
        },
        None => LlmConfigStep::LookUpDefault,
    }
}

/// The step after looking up the selected administrator's model: it is used when it exists
/// and its key decrypts; otherwise the default is looked up.
pub fn after_selected_model(key: &[u8; 32], model: Option<AdminLlmModel>) -> (s: LlmConfigStep)
    requires
        model matches Some(m) ==> model_usable(key@, m),
    ensures
        match model {
            Some(m) => match decrypted_text(key@, m.api_key_encrypted@) {
                Some(_) => s matches LlmConfigStep::Resolved(c) && admin_model_gives(key@, m, Some(c)),
                None => s is LookUpDefault,
            },
            None => s is LookUpDefault,
        },
{
    match model {
        Some(m) => match model_config_from_admin_model(key, m) {
            Some(c) => LlmConfigStep::Resolved(c),
            None => LlmConfigStep::LookUpDefault,
        },
        None => LlmConfigStep::LookUpDefault,
    }
}

/// The step after looking up the default administrator's model: it is used when it exists and
/// its key decrypts; otherwise the environment decides.
pub fn after_default_model(key: &[u8; 32], model: Option<AdminLlmModel>) -> (s: LlmConfigStep)
    requires
        model matches Some(m) ==> model_usable(key@, m),
    ensures
        match model {
            Some(m) => match decrypted_text(key@, m.api_key_encrypted@) {
                Some(_) => s matches LlmConfigStep::Resolved(c) && admin_model_gives(key@, m, Some(c)),
                None => s is FromEnvironment,
            },
            None => s is FromEnvironment,
        },
{
    match model {
        Some(m) => match model_config_from_admin_model(key, m) {
            Some(c) => LlmConfigStep::Resolved(c),
            None => LlmConfigStep::FromEnvironment,
        },
        None => LlmConfigStep::FromEnvironment,
    }
}

/// The configuration the environment gives (`LLM_PROVIDER`, `LLM_MODEL_ID`, `LLM_API_KEY`,
/// `LLM_BASE_URL`): the fake provider needs no model or key.
pub fn llm_config_from_environment(
    provider: &str,
    model_id: Option<String>,
    api_key: Option<String>,
    base_url: Option<String>,
) -> (c: ModelConfig)
    requires
        provider_named(provider@) is Some,
        provider_named(provider@) != Some(ProviderKind::Fake) ==> model_id is Some && api_key is Some,
    ensures
        c.provider == provider_named(provider@).unwrap(),
        c.provider == ProviderKind::Fake ==> c.model_id@.len() == 0 && c.api_key@.len() == 0,
        c.provider != ProviderKind::Fake ==> c.model_id@ == model_id.unwrap()@ && c.api_key@ == api_key.unwrap()@,
        c.base_url == base_url,
{
    let kind = llm_provider_kind_from_str(provider);
    match kind {
        ProviderKind::Fake => ModelConfig { provider: kind, model_id: String::new(), api_key: String::new(), base_url },
        _ => ModelConfig { provider: kind, model_id: model_id.unwrap(), api_key: api_key.unwrap(), base_url },
    }
}

/// Everything needed to talk to an embedding model.
#[derive(Debug, Clone)]
pub struct EmbeddingConfig {
    pub provider: EmbeddingProviderKind,
    pub model_id: String,
    pub api_key: String,
    pub base_url: Option<String>,
}

/// The stored embedding settings; the key is encrypted.
#[derive(Debug, Clone)]
pub struct EmbeddingSettingsRow {
    pub provider: String,
    pub model_id: String,
    pub api_key_encrypted: Vec<u8>,
    pub base_url: Option<String>,
}

/// The embedding configuration stored settings give: none when there are none, when the key
/// does not decrypt, or when the provider is unknown.
pub fn embedding_config_from_settings(key: &[u8; 32], row: Option<EmbeddingSettingsRow>) -> (r: Option<EmbeddingConfig>)
    ensures
        match row {
            Some(s) => match (decrypted_text(key@, s.api_key_encrypted@), embedding_provider_named(s.provider@)) {
                (Some(k), Some(p)) => r matches Some(c) && {
                    &&& c.provider == p
                    &&& c.model_id@ == s.model_id@
                    &&& c.api_key@ == k
                    &&& c.base_url == s.base_url
                },
                _ => r is None,
            },
            None => r is None,
        },
{
    let row = row?;
    let api_key = match decrypt(key, row.api_key_encrypted.as_slice()) {
        Ok(k) => k,
        Err(_) => return None,
    };
    let provider = match embedding_provider_kind_from_str(row.provider.as_str()) {
        Ok(p) => p,
        Err(_) => return None,
    };
    Some(EmbeddingConfig { provider, model_id: row.model_id, api_key, base_url: row.base_url })
}

/// The embedding configuration the environment gives (`EMBEDDING_PROVIDER`, "openai" when
/// unset; `EMBEDDING_MODEL_ID`, `EMBEDDING_API_KEY`, `EMBEDDING_BASE_URL`): the fake provider
/// needs no model or key.
pub fn embedding_config_from_environment(
    provider: Option<String>,
    model_id: Option<String>,
    api_key: Option<String>,
    base_url: Option<String>,
) -> (c: EmbeddingConfig)
    requires
        embedding_provider_named(match provider { Some(p) => p@, None => "openai"@ }) is Some,
        embedding_provider_named(match provider { Some(p) => p@, None => "openai"@ }) != Some(EmbeddingProviderKind::Fake)
            ==> model_id is Some && api_key is Some,
    ensures
        Some(c.provider) == embedding_provider_named(match provider { Some(p) => p@, None => "openai"@ }),
        c.provider == EmbeddingProviderKind::Fake ==> c.model_id@.len() == 0 && c.api_key@.len() == 0,
        c.provider != EmbeddingProviderKind::Fake ==> c.model_id@ == model_id.unwrap()@ && c.api_key@ == api_key.unwrap()@,
        c.base_url == base_url,
{
    let name = match provider {
        Some(p) => p,
        None => "openai".to_owned(),
    };
    let kind = match embedding_provider_kind_from_str(name.as_str()) {
        Ok(k) => k,
        Err(_) => EmbeddingProviderKind::Fake,
    };
    match kind {
        EmbeddingProviderKind::Fake => EmbeddingConfig {
            provider: kind,
            model_id: String::new(),
            api_key: String::new(),
            base_url,
        },
        _ => EmbeddingConfig { provider: kind, model_id: model_id.unwrap(), api_key: api_key.unwrap(), base_url },
    }
}

} // verus!

verus! {

/// An administrator's model saved with its key encrypted under `key` is configured, under the
/// same key, with that very key (and its own provider, model and base URL).
pub proof fn lemma_saved_model_configures_its_key(
    key: Seq<u8>,
    m: AdminLlmModel,
    api_key: Seq<char>,
    c: Option<ModelConfig>,
)
    requires
        crate::settings::crypto::sealed_text(key, api_key, m.api_key_encrypted@),
        provider_named(m.provider@) is Some,
        admin_model_gives(key, m, c),
    ensures
        c matches Some(x) && is_config(x, provider_named(m.provider@).unwrap(), m.model_id@, api_key, m.base_url.deep_view()),
{
    crate::settings::crypto::lemma_decrypt_undoes_encrypt(key, api_key, m.api_key_encrypted@);
}

} // verus!
