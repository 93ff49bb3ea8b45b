use vstd::prelude::*;

use crate::bootstrap::{provider_named, AdminLlmModel, UserLlmSelectionRow};
use crate::llm::config::{ModelConfig, ModelSummary, ProviderKind};
use crate::routes::{api_error, is_error, ApiError, BAD_REQUEST, INTERNAL_SERVER_ERROR, NOT_FOUND};
use crate::settings::crypto::{decrypt, decrypted_text, encrypt, sealed_text, MAX_PLAINTEXT_LEN};
use crate::text::{blank, clone_opt, is_blank, or_empty, or_empty_spec, str_eq};
use vstd::utf8::encode_utf8;

verus! {

/// What an unknown provider name is answered.
pub const UNKNOWN_PROVIDER: &'static str = "unknown provider (expected anthropic, openai, gemini, or fake)";

/// Reads a provider name; only the four the server offers are known.
pub fn provider_kind_from_str(s: &str) -> (r: Option<ProviderKind>)
    ensures
        r == provider_named(s@),
{
    proof {
        reveal_strlit("anthropic");
        reveal_strlit("openai");
        reveal_strlit("gemini");
        reveal_strlit("fake");
    }
    if str_eq(s, "anthropic") {
        Some(ProviderKind::Anthropic)
    } else if str_eq(s, "openai") {
        Some(ProviderKind::OpenAi)
    } else if str_eq(s, "gemini") {
        Some(ProviderKind::Gemini)
    } else if str_eq(s, "fake") {
        Some(ProviderKind::Fake)
    } else {
        None
    }
}

fn is_fake(provider: &str) -> (r: bool)
    ensures
        r == (provider@ == "fake"@),
{
    str_eq(provider, "fake")
}

/// A new administrator's model, as an administrator submits it.
#[derive(Debug, Clone)]
pub struct CreateAdminModelRequest {
    pub label: String,
    pub provider: String,
    pub model_id: String,
    pub api_key: String,
    pub base_url: Option<String>,
}

/// An edit of an administrator's model; no key (or an empty one) keeps the stored key.
#[derive(Debug, Clone)]
pub struct UpdateAdminModelRequest {
    pub label: String,
    pub provider: String,
    pub model_id: String,
    pub api_key: Option<String>,
    pub base_url: Option<String>,
}

/// Why a model description is refused, checked in this order: an unknown provider; a real
/// provider without a model, or (when a key is being set) without a key; no label.
pub open spec fn model_problem(
    label: Seq<char>,
    provider: Seq<char>,
    model_id: Seq<char>,
    api_key: Option<Seq<char>>,
) -> Option<Seq<char>> {
    let fake = provider == "fake"@;
    if provider_named(provider) is None {
        Some(UNKNOWN_PROVIDER@)
    } else if !fake && is_blank(model_id) {
        Some("model_id is required for a non-fake provider"@)
    } else if !fake && (api_key matches Some(k) && is_blank(k)) {
        Some("api_key is required for a non-fake provider"@)
    } else if is_blank(label) {
        Some("label is required"@)
    } else {
        None
    }
}

/// The answer to a model description: 400 with the problem, if it has one.
pub open spec fn model_check(
    r: Result<(), ApiError>,
    label: Seq<char>,
    provider: Seq<char>,
    model_id: Seq<char>,
    api_key: Option<Seq<char>>,
) -> bool {
    match model_problem(label, provider, model_id, api_key) {
        Some(m) => r matches Err(e) && is_error(e, BAD_REQUEST, m),
        None => r is Ok,
    }
}

fn check_model(label: &str, provider: &str, model_id: &str, api_key: Option<&str>) -> (r: Result<(), ApiError>)
    ensures
        model_check(r, label@, provider@, model_id@, match api_key { Some(k) => Some(k@), None => None }),
{
    if provider_kind_from_str(provider).is_none() {
        return Err(api_error(BAD_REQUEST, UNKNOWN_PROVIDER));
    }
    let fake = is_fake(provider);
    if !fake && blank(model_id) {
        return Err(api_error(BAD_REQUEST, "model_id is required for a non-fake provider"));
    }
    if !fake {
        if let Some(k) = api_key {
            if blank(k) {
                return Err(api_error(BAD_REQUEST, "api_key is required for a non-fake provider"));
            }
        }
    }
    if blank(label) {
        return Err(api_error(BAD_REQUEST, "label is required"));
    }
    Ok(())
}

/// Checks a new administrator's model: a real provider needs a model and a key, and every
/// model needs a label.
pub fn validate_create_admin_model(req: &CreateAdminModelRequest) -> (r: Result<(), ApiError>)
    ensures
        model_check(r, req.label@, req.provider@, req.model_id@, Some(req.api_key@)),
{
    check_model(req.label.as_str(), req.provider.as_str(), req.model_id.as_str(), Some(req.api_key.as_str()))
}

/// Checks an edit of an administrator's model, which need not carry a key.
pub fn validate_update_admin_model(req: &UpdateAdminModelRequest) -> (r: Result<(), ApiError>)
    ensures
        model_check(r, req.label@, req.provider@, req.model_id@, None),
{
    check_model(req.label.as_str(), req.provider.as_str(), req.model_id.as_str(), None)
}

/// A key short enough to encrypt.
pub open spec fn encryptable(s: Seq<char>) -> bool {
    encode_utf8(s).len() <= MAX_PLAINTEXT_LEN
}

/// The key an edit stores: a non-empty one, encrypted under `key`; none keeps the stored key.
pub fn key_to_store(key: &[u8; 32], api_key: &Option<String>) -> (r: Option<Vec<u8>>)
    requires
        api_key matches Some(k) ==> encryptable(k@),
    ensures
        match api_key {
            Some(k) if k@.len() > 0 => r matches Some(c) && sealed_text(key@, k@, c@),
            _ => r is None,
        },
{
    match api_key {
        Some(k) => {
            if k.as_str().is_empty() {
                None
            } else {
                Some(encrypt(key, k.as_str()))
            }
        },
        None => None,
    }
}

/// Whether a newly created model becomes the default: only the first one ever does, so there
/// is always a default once any model exists.
pub fn new_model_is_default(existing_count: i64) -> (r: bool)
    ensures
        r == (existing_count == 0),
{
    existing_count == 0
}

/// Why an administrator's model could not be deleted.
#[derive(Debug, Clone, PartialEq, Eq)]
pub enum DeleteAdminLlmModelError {
    NotFound,
    IsDefault,
    Database(String),
}

/// A model can be deleted when it exists and is not the default: the default never goes, so
/// at least one model always survives.
pub fn check_deletable(model: &Option<AdminLlmModel>) -> (r: Result<(), DeleteAdminLlmModelError>)
    ensures
        match model {
            None => r == Err::<(), DeleteAdminLlmModelError>(DeleteAdminLlmModelError::NotFound),
            Some(m) => if m.is_default {
                r == Err::<(), DeleteAdminLlmModelError>(DeleteAdminLlmModelError::IsDefault)
            } else {
                r is Ok
            },
        },
{
    match model {
        None => Err(DeleteAdminLlmModelError::NotFound),
        Some(m) => if m.is_default {
            Err(DeleteAdminLlmModelError::IsDefault)
        } else {
            Ok(())
        },
    }
}

/// How a failed deletion is answered.
pub fn delete_error_response(e: &DeleteAdminLlmModelError) -> (r: ApiError)
    ensures
        match e {
            DeleteAdminLlmModelError::NotFound => is_error(r, NOT_FOUND, "model not found"@),
            DeleteAdminLlmModelError::IsDefault => is_error(
                r,
                BAD_REQUEST,
                "cannot delete the current default; set a different default first"@,
            ),
            DeleteAdminLlmModelError::Database(_) => is_error(r, INTERNAL_SERVER_ERROR, "failed to delete model"@),
        },
{
    match e {
        DeleteAdminLlmModelError::NotFound => api_error(NOT_FOUND, "model not found"),
        DeleteAdminLlmModelError::IsDefault => api_error(
            BAD_REQUEST,
            "cannot delete the current default; set a different default first",
        ),
        DeleteAdminLlmModelError::Database(_) => api_error(INTERNAL_SERVER_ERROR, "failed to delete model"),
    }
}

/// Why a model could not be made the default.
#[derive(Debug, Clone, PartialEq, Eq)]
pub enum SetDefaultAdminLlmModelError {
    NotFound,
    Database(String),
}

/// Promoting a model to default finds it when the promotion touched a row.
pub fn check_promoted(rows_affected: u64) -> (r: Result<(), SetDefaultAdminLlmModelError>)
    ensures
        rows_affected == 0 ==> r == Err::<(), SetDefaultAdminLlmModelError>(SetDefaultAdminLlmModelError::NotFound),
        rows_affected != 0 ==> r is Ok,
{
    if rows_affected == 0 {
        Err(SetDefaultAdminLlmModelError::NotFound)
    } else {
        Ok(())
    }
}

/// How a failed promotion is answered.
pub fn set_default_error_response(e: &SetDefaultAdminLlmModelError) -> (r: ApiError)
    ensures
        match e {
            SetDefaultAdminLlmModelError::NotFound => is_error(r, NOT_FOUND, "model not found"@),
            SetDefaultAdminLlmModelError::Database(_) => is_error(r, INTERNAL_SERVER_ERROR, "failed to set default"@),
        },
{
    match e {
        SetDefaultAdminLlmModelError::NotFound => api_error(NOT_FOUND, "model not found"),
        SetDefaultAdminLlmModelError::Database(_) => api_error(INTERNAL_SERVER_ERROR, "failed to set default"),
    }
}

/// A request to list a provider's models; without a key, an existing model's stored key can be
/// used.
#[derive(Debug, Clone)]
pub struct FetchProviderModelsRequest {
    pub provider: String,
    pub api_key: Option<String>,
    pub base_url: Option<String>,
    pub existing_model_id: Option<u128>,
}

/// Where the key for listing a provider's models comes from.
#[derive(Debug, Clone, PartialEq, Eq)]
pub enum KeySource {
    /// The key the request carries.
    Given(String),
    /// The stored key of this administrator's model.
    Stored(u128),
}

/// A given non-empty key wins; otherwise an existing model's stored key is used, and without
/// one the request is refused, for every provider. An unknown provider is refused first.
pub fn fetch_models_key_source(req: &FetchProviderModelsRequest) -> (r: Result<(ProviderKind, KeySource), ApiError>)
    ensures
        match provider_named(req.provider@) {
            None => r matches Err(e) && is_error(e, BAD_REQUEST, UNKNOWN_PROVIDER@),
            Some(p) => match req.api_key {
                Some(k) if k@.len() > 0 => r matches Ok((q, KeySource::Given(g))) && q == p && g@ == k@,
                _ => match req.existing_model_id {
                    Some(id) => r == Ok::<(ProviderKind, KeySource), ApiError>((p, KeySource::Stored(id))),
                    None => r matches Err(e) && is_error(
                        e,
                        BAD_REQUEST,
                        "api_key is required to fetch models for a new entry"@,
                    ),
                },
            },
        },
{
    let kind = match provider_kind_from_str(req.provider.as_str()) {
        Some(k) => k,
        None => return Err(api_error(BAD_REQUEST, UNKNOWN_PROVIDER)),
    };
    if let Some(k) = &req.api_key {
        if !k.as_str().is_empty() {
            return Ok((kind, KeySource::Given(k.clone())));
        }
    }
    match req.existing_model_id {
        Some(id) => Ok((kind, KeySource::Stored(id))),
        None => Err(api_error(BAD_REQUEST, "api_key is required to fetch models for a new entry")),
    }
}

/// The stored key of the model a listing reuses: refused when the model is gone or its key
/// does not decrypt.
pub fn stored_key(key: &[u8; 32], model: Option<AdminLlmModel>) -> (r: Result<String, ApiError>)
    ensures
        match model {
            None => r matches Err(e) && is_error(e, NOT_FOUND, "model not found"@),
            Some(m) => match decrypted_text(key@, m.api_key_encrypted@) {
                Some(k) => r matches Ok(s) && s@ == k,
                None => r matches Err(e) && is_error(e, INTERNAL_SERVER_ERROR, "failed to decrypt stored api key"@),
            },
        },
{
    match model {
        None => Err(api_error(NOT_FOUND, "model not found")),
        Some(m) => match decrypt(key, m.api_key_encrypted.as_slice()) {
            Ok(k) => Ok(k),
            Err(_) => Err(api_error(INTERNAL_SERVER_ERROR, "failed to decrypt stored api key")),
        },
    }
}

/// The configuration a model listing runs with: no model, the chosen key and base URL.
pub fn listing_config(provider: ProviderKind, api_key: String, base_url: Option<String>) -> (c: ModelConfig)
    ensures
        c.provider == provider,
        c.model_id@.len() == 0,
        c.api_key == api_key,
        c.base_url == base_url,
{
    ModelConfig { provider, model_id: String::new(), api_key, base_url }
}

/// One model a provider offers, as the listing endpoint reports it.
#[derive(Debug, Clone, PartialEq, Eq)]
pub struct FetchedModel {
    pub id: String,
    pub label: Option<String>,
}

/// The models a provider offers.
#[derive(Debug, Clone)]
pub struct FetchProviderModelsResponse {
    pub models: Vec<FetchedModel>,
}

/// The listing response for the models a provider reported, in the same order.
pub fn fetched_models(models: Vec<ModelSummary>) -> (r: FetchProviderModelsResponse)
    ensures
        r.models@.len() == models@.len(),
        forall|i: int| 0 <= i < models@.len() ==> r.models@[i].id == #[trigger] models@[i].id && r.models@[i].label == models@[i].label,
{
    let mut out: Vec<FetchedModel> = Vec::new();
    let mut i: usize = 0;
    while i < models.len()
        invariant
            i <= models@.len(),
            out@.len() == i,
            forall|q: int| 0 <= q < i ==> out@[q].id == #[trigger] models@[q].id && out@[q].label == models@[q].label,
        decreases models.len() - i,
    {
        let id = models[i].id.clone();
        let label = clone_opt(&models[i].label);
        out.push(FetchedModel { id, label });
        assert(out@[i as int].id == models@[i as int].id);
        i = i + 1;
    }
    FetchProviderModelsResponse { models: out }
}


/// What a user asks to use: one of the administrators' models, or a model of their own.
#[derive(Debug, Clone)]
pub enum SelectionRequest {
    Admin { admin_model_id: u128 },
    Custom { label: String, provider: String, model_id: String, api_key: String, base_url: Option<String> },
}

/// A user's own model as stored: its key encrypted.
#[derive(Debug, Clone)]
pub struct CustomLlmSelection {
    pub label: String,
    pub provider: String,
    pub model_id: String,
    pub api_key_encrypted: Vec<u8>,
    pub base_url: Option<String>,
}

/// Why a model of one's own is refused, checked in this order: an unknown provider; a real
/// provider without a model or without a key.
pub open spec fn selection_problem(provider: Seq<char>, model_id: Seq<char>, api_key: Seq<char>) -> Option<Seq<char>> {
    let fake = provider == "fake"@;
    if provider_named(provider) is None {
        Some(UNKNOWN_PROVIDER@)
    } else if !fake && is_blank(model_id) {
        Some("model_id is required for a non-fake provider"@)
    } else if !fake && is_blank(api_key) {
        Some("api_key is required for a non-fake provider"@)
    } else {
        None
    }
}

/// Choosing an administrator's model needs the model to exist.
pub fn check_admin_selection(exists: bool) -> (r: Result<(), ApiError>)
    ensures
        exists ==> r is Ok,
        !exists ==> (r matches Err(e) && is_error(e, NOT_FOUND, "model not found"@)),
{
    if exists {
        Ok(())
    } else {
        Err(api_error(NOT_FOUND, "model not found"))
    }
}

/// The configuration a model of one's own is tried with before it is saved, or why it is
/// refused (400).
pub fn custom_selection_config(
    provider: &str,
    model_id: &str,
    api_key: &str,
    base_url: &Option<String>,
) -> (r: Result<ModelConfig, ApiError>)
    ensures
        match selection_problem(provider@, model_id@, api_key@) {
            Some(m) => r matches Err(e) && is_error(e, BAD_REQUEST, m),
            None => r matches Ok(c) && {
                &&& Some(c.provider) == provider_named(provider@)
                &&& c.model_id@ == model_id@
                &&& c.api_key@ == api_key@
                &&& c.base_url == *base_url
            },
        },
{
    let kind = match provider_kind_from_str(provider) {
        Some(k) => k,
        None => return Err(api_error(BAD_REQUEST, UNKNOWN_PROVIDER)),
    };
    let fake = is_fake(provider);
    if !fake && blank(model_id) {
        return Err(api_error(BAD_REQUEST, "model_id is required for a non-fake provider"));
    }
    if !fake && blank(api_key) {
        return Err(api_error(BAD_REQUEST, "api_key is required for a non-fake provider"));
    }
    Ok(ModelConfig {
        provider: kind,
        model_id: model_id.to_owned(),
        api_key: api_key.to_owned(),
        base_url: match base_url {
            Some(u) => Some(u.clone()),
            None => None,
        },
    })
}

/// A model of one's own as it is stored: the key encrypted under `key`.
pub fn custom_selection_to_store(
    key: &[u8; 32],
    label: String,
    provider: String,
    model_id: String,
    api_key: &str,
    base_url: Option<String>,
) -> (s: CustomLlmSelection)
    requires
        encryptable(api_key@),
    ensures
        s.label == label,
        s.provider == provider,
        s.model_id == model_id,
        sealed_text(key@, api_key@, s.api_key_encrypted@),
        s.base_url == base_url,
{
    CustomLlmSelection { label, provider, model_id, api_key_encrypted: encrypt(key, api_key), base_url }
}

} // verus!

verus! {

/// How many of `models` are the default.
pub open spec fn default_count(models: Seq<AdminLlmModel>) -> nat
    decreases models.len(),
{
    if models.len() == 0 {
        0
    } else {
        default_count(models.drop_last()) + if models.last().is_default { 1nat } else { 0nat }
    }
}

/// Exactly one model is the default whenever any model exists.
pub open spec fn one_default(models: Seq<AdminLlmModel>) -> bool {
    models.len() == 0 || default_count(models) == 1
}

/// `models` after model `i` became the default and every other stopped being it.
pub open spec fn promoted(models: Seq<AdminLlmModel>, i: int) -> Seq<AdminLlmModel> {
    Seq::new(
        models.len(),
        |j: int|
            AdminLlmModel {
                id: models[j].id,
                label: models[j].label,
                provider: models[j].provider,
                model_id: models[j].model_id,
                api_key_encrypted: models[j].api_key_encrypted,
                base_url: models[j].base_url,
                is_default: j == i,
            },
    )
}

proof fn lemma_count_without(models: Seq<AdminLlmModel>, i: int)
    requires
        0 <= i < models.len(),
    ensures
        default_count(models.remove(i)) + (if models[i].is_default { 1nat } else { 0nat }) == default_count(models),
    decreases models.len(),
{
    if i == models.len() - 1 {
        assert(models.remove(i) =~= models.drop_last());
    } else {
        lemma_count_without(models.drop_last(), i);
        assert(models.remove(i).drop_last() =~= models.drop_last().remove(i));
        assert(models.remove(i).last() == models.last());
    }
}

proof fn lemma_count_promoted(models: Seq<AdminLlmModel>, i: int)
    ensures
        default_count(promoted(models, i)) == if 0 <= i < models.len() { 1nat } else { 0nat },
    decreases models.len(),
{
    if models.len() > 0 {
        lemma_count_promoted(models.drop_last(), i);
        assert(promoted(models, i).drop_last() =~= promoted(models.drop_last(), i));
    }
}

/// Creating a model keeps exactly one default: the first model created becomes it, later ones
/// do not.
pub proof fn lemma_create_keeps_one_default(models: Seq<AdminLlmModel>, created: AdminLlmModel)
    requires
        one_default(models),
        created.is_default == (models.len() == 0),
    ensures
        one_default(models.push(created)),
{
    assert(models.push(created).drop_last() =~= models);
    assert(models.push(created).last() == created);
    assert(default_count(models.push(created)) == default_count(models) + if created.is_default { 1nat } else { 0nat });
    if models.len() == 0 {
        assert(default_count(models) == 0);
    }
}

/// Deleting a model that is not the default keeps exactly one default, so at least one model
/// always survives a deletion.
pub proof fn lemma_delete_keeps_one_default(models: Seq<AdminLlmModel>, i: int)
    requires
        one_default(models),
        0 <= i < models.len(),
        !models[i].is_default,
    ensures
        one_default(models.remove(i)),
        models.remove(i).len() > 0,
{
    lemma_count_without(models, i);
}

/// Where the model with id `id` stands among `models` (the table's ids are unique).
pub open spec fn position_of(models: Seq<AdminLlmModel>, id: u128) -> Option<int>
    decreases models.len(),
{
    if models.len() == 0 {
        None
    } else if models.last().id == id {
        Some(models.len() - 1)
    } else {
        position_of(models.drop_last(), id)
    }
}

proof fn lemma_position_of(models: Seq<AdminLlmModel>, id: u128)
    ensures
        match position_of(models, id) {
            Some(i) => 0 <= i < models.len() && models[i].id == id,
            None => forall|j: int| 0 <= j < models.len() ==> #[trigger] models[j].id != id,
        },
    decreases models.len(),
{
    if models.len() > 0 && models.last().id != id {
        lemma_position_of(models.drop_last(), id);
        if position_of(models, id) is None {
            assert forall|j: int| 0 <= j < models.len() implies #[trigger] models[j].id != id by {
                if j < models.len() - 1 {
                    assert(models[j] == models.drop_last()[j]);
                }
            }
        }
    }
}

/// What deleting model `id` does to the table: no such model is `NotFound`, the default is
/// `IsDefault` and the table is left as it is, any other model is removed.
pub open spec fn deletion(models: Seq<AdminLlmModel>, id: u128) -> Result<Seq<AdminLlmModel>, DeleteAdminLlmModelError> {
    match position_of(models, id) {
        None => Err(DeleteAdminLlmModelError::NotFound),
        Some(i) => if models[i].is_default {
            Err(DeleteAdminLlmModelError::IsDefault)
        } else {
            Ok(models.remove(i))
        },
    }
}

/// Deleting from a table that keeps exactly one default: an id that no model has is not
/// found; the default is refused; any other model goes, and what is left still has exactly one
/// default and at least one model, so the last model can never be deleted.
pub proof fn lemma_deletion_keeps_one_default(models: Seq<AdminLlmModel>, id: u128)
    requires
        one_default(models),
    ensures
        deletion(models, id) == Err::<Seq<AdminLlmModel>, DeleteAdminLlmModelError>(DeleteAdminLlmModelError::NotFound)
            <==> forall|j: int| 0 <= j < models.len() ==> #[trigger] models[j].id != id,
        deletion(models, id) matches Ok(rest) ==> {
            &&& one_default(rest)
            &&& rest.len() > 0
            &&& rest.len() + 1 == models.len()
        },
{
    lemma_position_of(models, id);
    match position_of(models, id) {
        Some(i) => {
            if !models[i].is_default {
                lemma_delete_keeps_one_default(models, i);
            }
        },
        None => {},
    }
}

/// Promoting a model makes it the one default.
pub proof fn lemma_promote_makes_one_default(models: Seq<AdminLlmModel>, i: int)
    requires
        0 <= i < models.len(),
    ensures
        one_default(promoted(models, i)),
        promoted(models, i)[i].is_default,
{
    lemma_count_promoted(models, i);
}

/// A key stored by an edit reads back as the key that was given.
pub proof fn lemma_stored_key_reads_back(key: Seq<u8>, api_key: Seq<char>, stored: Seq<u8>)
    requires
        sealed_text(key, api_key, stored),
    ensures
        decrypted_text(key, stored) == Some(api_key),
{
    crate::settings::crypto::lemma_decrypt_undoes_encrypt(key, api_key, stored);
}

} // verus!

verus! {

/// A new administrator's model as it is stored: the key encrypted, and who saved it.
#[derive(Debug, Clone)]
pub struct NewAdminLlmModel {
    pub label: String,
    pub provider: String,
    pub model_id: String,
    pub api_key_encrypted: Vec<u8>,
    pub base_url: Option<String>,
    pub updated_by: u128,
}

/// An administrator's model edit as it is stored; no encrypted key keeps the stored one.
#[derive(Debug, Clone)]
pub struct UpdateAdminLlmModel {
    pub label: String,
    pub provider: String,
    pub model_id: String,
    pub api_key_encrypted: Option<Vec<u8>>,
    pub base_url: Option<String>,
    pub updated_by: u128,
}

/// What creating a model stores: the request's fields with its key encrypted under `key`.
pub fn new_admin_llm_model(key: &[u8; 32], req: CreateAdminModelRequest, updated_by: u128) -> (m: NewAdminLlmModel)
    requires
        encryptable(req.api_key@),
    ensures
        m.label == req.label,
        m.provider == req.provider,
        m.model_id == req.model_id,
        sealed_text(key@, req.api_key@, m.api_key_encrypted@),
        m.base_url == req.base_url,
        m.updated_by == updated_by,
{
    let api_key_encrypted = encrypt(key, req.api_key.as_str());
    NewAdminLlmModel {
        label: req.label,
        provider: req.provider,
        model_id: req.model_id,
        api_key_encrypted,
        base_url: req.base_url,
        updated_by,
    }
}

/// What editing a model stores: the request's fields, and its key (when one is given)
/// encrypted under `key`.
pub fn update_admin_llm_model_input(key: &[u8; 32], req: UpdateAdminModelRequest, updated_by: u128) -> (m: UpdateAdminLlmModel)
    requires
        req.api_key matches Some(k) ==> encryptable(k@),
    ensures
        m.label == req.label,
        m.provider == req.provider,
        m.model_id == req.model_id,
        match req.api_key {
            Some(k) if k@.len() > 0 => m.api_key_encrypted matches Some(c) && sealed_text(key@, k@, c@),
            _ => m.api_key_encrypted is None,
        },
        m.base_url == req.base_url,
        m.updated_by == updated_by,
{
    let api_key_encrypted = key_to_store(key, &req.api_key);
    UpdateAdminLlmModel {
        label: req.label,
        provider: req.provider,
        model_id: req.model_id,
        api_key_encrypted,
        base_url: req.base_url,
        updated_by,
    }
}

/// An administrator's model as a user picks from them.
#[derive(Debug, Clone, PartialEq, Eq)]
pub struct UserModelOption {
    pub id: u128,
    pub label: String,
    pub provider: String,
    pub model_id: String,
}

/// The models a user can pick from, in the order they were listed.
pub fn user_model_options(models: &Vec<AdminLlmModel>) -> (r: Vec<UserModelOption>)
    ensures
        r@.len() == models@.len(),
        forall|i: int|
            0 <= i < r@.len() ==> {
                &&& (#[trigger] r@[i]).id == models@[i].id
                &&& r@[i].label == models@[i].label
                &&& r@[i].provider == models@[i].provider
                &&& r@[i].model_id == models@[i].model_id
            },
{
    let mut r: Vec<UserModelOption> = Vec::new();
    let mut i: usize = 0;
    while i < models.len()
        invariant
            i <= models@.len(),
            r@.len() == i,
            forall|j: int|
                0 <= j < i ==> {
                    &&& (#[trigger] r@[j]).id == models@[j].id
                    &&& r@[j].label == models@[j].label
                    &&& r@[j].provider == models@[j].provider
                    &&& r@[j].model_id == models@[j].model_id
                },
        decreases models.len() - i,
    {
        let m = &models[i];
        r.push(UserModelOption {
            id: m.id,
            label: m.label.clone(),
            provider: m.provider.clone(),
            model_id: m.model_id.clone(),
        });
        i = i + 1;
    }
    r
}

} // verus!

verus! {

/// An administrator's model as the settings page shows it: its key masked.
#[derive(Debug, Clone, PartialEq, Eq)]
pub struct AdminLlmModelResponse {
    pub id: u128,
    pub label: String,
    pub provider: String,
    pub model_id: String,
    pub base_url: Option<String>,
    pub is_default: bool,
    pub api_key_masked: String,
}

/// `r` shows model `m` whose key decrypts to `k`.
pub open spec fn shows_model(r: AdminLlmModelResponse, m: AdminLlmModel, k: Seq<char>) -> bool {
    &&& r.id == m.id
    &&& r.label == m.label
    &&& r.provider == m.provider
    &&& r.model_id == m.model_id
    &&& r.base_url == m.base_url
    &&& r.is_default == m.is_default
    &&& r.api_key_masked@ == crate::settings::masked(k)
}

/// How a model is shown: refused (500) when its stored key does not decrypt under `key`.
pub fn to_response(model: AdminLlmModel, key: &[u8; 32]) -> (r: Result<AdminLlmModelResponse, ApiError>)
    ensures
        match decrypted_text(key@, model.api_key_encrypted@) {
            Some(k) => r matches Ok(x) && shows_model(x, model, k),
            None => r matches Err(e) && is_error(e, INTERNAL_SERVER_ERROR, "failed to decrypt stored api key"@),
        },
{
    let api_key = match decrypt(key, model.api_key_encrypted.as_slice()) {
        Ok(k) => k,
        Err(_) => return Err(api_error(INTERNAL_SERVER_ERROR, "failed to decrypt stored api key")),
    };
    Ok(AdminLlmModelResponse {
        id: model.id,
        label: model.label,
        provider: model.provider,
        model_id: model.model_id,
        base_url: model.base_url,
        is_default: model.is_default,
        api_key_masked: crate::settings::mask_api_key(api_key.as_str()),
    })
}

/// Every model shown, in order; the first model whose key does not decrypt refuses the list.
pub fn admin_model_responses(models: Vec<AdminLlmModel>, key: &[u8; 32]) -> (r: Result<Vec<AdminLlmModelResponse>, ApiError>)
    ensures
        match r {
            Ok(xs) => {
                &&& xs@.len() == models@.len()
                &&& forall|i: int| 0 <= i < xs@.len() ==> #[trigger] decrypted_text(key@, models@[i].api_key_encrypted@) is Some
                    && shows_model(xs@[i], models@[i], decrypted_text(key@, models@[i].api_key_encrypted@).unwrap())
            },
            Err(e) => {
                &&& is_error(e, INTERNAL_SERVER_ERROR, "failed to decrypt stored api key"@)
                &&& exists|i: int| 0 <= i < models@.len() && #[trigger] decrypted_text(key@, models@[i].api_key_encrypted@) is None
                    && forall|j: int| 0 <= j < i ==> #[trigger] decrypted_text(key@, models@[j].api_key_encrypted@) is Some
            },
        },
{
    let mut out: Vec<AdminLlmModelResponse> = Vec::new();
    let mut i: usize = 0;
    while i < models.len()
        invariant
            i <= models@.len(),
            out@.len() == i,
            forall|q: int| 0 <= q < i ==> #[trigger] decrypted_text(key@, models@[q].api_key_encrypted@) is Some
                && shows_model(out@[q], models@[q], decrypted_text(key@, models@[q].api_key_encrypted@).unwrap()),
        decreases models.len() - i,
    {
        let m = AdminLlmModel {
            id: models[i].id,
            label: models[i].label.clone(),
            provider: models[i].provider.clone(),
            model_id: models[i].model_id.clone(),
            api_key_encrypted: models[i].api_key_encrypted.clone(),
            base_url: clone_opt(&models[i].base_url),
            is_default: models[i].is_default,
        };
        assert(m.api_key_encrypted@ == models@[i as int].api_key_encrypted@);
        match to_response(m, key) {
            Ok(x) => {
                out.push(x);
            },
            Err(e) => {
                assert(decrypted_text(key@, models@[i as int].api_key_encrypted@) is None);
                return Err(e);
            },
        }
        i = i + 1;
    }
    Ok(out)
}

/// A user's current model choice as their settings page shows it.
#[derive(Debug, Clone, PartialEq, Eq)]
pub enum UserSelectionResponse {
    Admin { admin_model_id: u128 },
    Custom { label: String, provider: String, model_id: String, api_key_masked: String, base_url: Option<String> },
}

/// The models a user can pick from, and their current choice.
#[derive(Debug, Clone)]
pub struct UserModelsResponse {
    pub admin_models: Vec<UserModelOption>,
    pub selection: Option<UserSelectionResponse>,
}

/// How a stored choice is shown: an administrator's model by its id; a model of one's own
/// with its key masked (missing texts shown empty), refused (500) when the key (none counts as
/// empty) does not decrypt under `key`; no choice otherwise.
pub fn selection_response(key: &[u8; 32], row: Option<UserLlmSelectionRow>) -> (r: Result<Option<UserSelectionResponse>, ApiError>)
    ensures
        match row {
            None => r == Ok::<Option<UserSelectionResponse>, ApiError>(None),
            Some(s) => match s.admin_model_id {
                Some(id) => r == Ok::<Option<UserSelectionResponse>, ApiError>(Some(UserSelectionResponse::Admin { admin_model_id: id })),
                None => match s.custom_provider {
                    None => r == Ok::<Option<UserSelectionResponse>, ApiError>(None),
                    Some(p) => match decrypted_text(
                        key@,
                        match s.custom_api_key_encrypted {
                            Some(b) => b@,
                            None => Seq::empty(),
                        },
                    ) {
                        None => r matches Err(e) && is_error(e, INTERNAL_SERVER_ERROR, "failed to decrypt stored api key"@),
                        Some(k) => r matches Ok(Some(UserSelectionResponse::Custom { label, provider, model_id, api_key_masked, base_url })) && {
                            &&& label@ == or_empty_spec(s.custom_label.deep_view())
                            &&& provider == p
                            &&& model_id@ == or_empty_spec(s.custom_model_id.deep_view())
                            &&& api_key_masked@ == crate::settings::masked(k)
                            &&& base_url == s.custom_base_url
                        },
                    },
                },
            },
        },
{
    let s = match row {
        None => return Ok(None),
        Some(s) => s,
    };
    if let Some(id) = s.admin_model_id {
        return Ok(Some(UserSelectionResponse::Admin { admin_model_id: id }));
    }
    let provider = match s.custom_provider {
        None => return Ok(None),
        Some(p) => p,
    };
    let encrypted: Vec<u8> = match s.custom_api_key_encrypted {
        Some(b) => b,
        None => Vec::new(),
    };
    let api_key = match decrypt(key, encrypted.as_slice()) {
        Ok(k) => k,
        Err(_) => return Err(api_error(INTERNAL_SERVER_ERROR, "failed to decrypt stored api key")),
    };
    Ok(Some(UserSelectionResponse::Custom {
        label: or_empty(s.custom_label),
        provider,
        model_id: or_empty(s.custom_model_id),
        api_key_masked: crate::settings::mask_api_key(api_key.as_str()),
        base_url: s.custom_base_url,
    }))
}

} // verus!
