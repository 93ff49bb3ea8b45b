use nomi::bootstrap::{AdminLlmModel, UserLlmSelectionRow};
use nomi::llm::config::{ModelSummary, ProviderKind};
use nomi::routes::admin_users::{
    require_user_permission, search_term, to_user_summary, user_list_window, validate_role, validate_scope_type,
    UserListQuery,
};
use nomi::routes::dynamic_agents::{validate_request, DynamicAgentRequest};
use nomi::routes::llm_models::{
    check_admin_selection, check_deletable, check_promoted, custom_selection_config, custom_selection_to_store,
    delete_error_response, fetch_models_key_source, fetched_models, key_to_store, listing_config,
    new_model_is_default, provider_kind_from_str, set_default_error_response, stored_key,
    validate_create_admin_model, validate_update_admin_model, CreateAdminModelRequest, DeleteAdminLlmModelError,
    FetchProviderModelsRequest, KeySource, SetDefaultAdminLlmModelError, UpdateAdminModelRequest,
    admin_model_responses, selection_response, to_response, AdminLlmModelResponse, UserSelectionResponse,
};
use nomi::routes::profile::{
    avatar_extension, avatar_key, preferences_response, profile_response, profile_save_error,
    profile_update_values, validate_theme, validate_username, UpdateProfileRequest,
};
use nomi::routes::projects::recorded_size;
use nomi::routes::ApiError;
use nomi::settings::crypto::{decrypt, encrypt};
use nomi::settings::mask_api_key;

const KEY: [u8; 32] = [7u8; 32];

fn err(status: u16, message: &str) -> ApiError {
    ApiError { status, message: message.to_string() }
}

fn create(label: &str, provider: &str, model_id: &str, api_key: &str) -> CreateAdminModelRequest {
    CreateAdminModelRequest {
        label: label.to_string(),
        provider: provider.to_string(),
        model_id: model_id.to_string(),
        api_key: api_key.to_string(),
        base_url: None,
    }
}

#[test]
fn admin_models_need_a_known_provider_model_key_and_label() {
    assert_eq!(
        validate_create_admin_model(&create("L", "mistral", "m", "k")),
        Err(err(400, "unknown provider (expected anthropic, openai, gemini, or fake)"))
    );
    assert_eq!(
        validate_create_admin_model(&create("L", "openai", "  ", "k")),
        Err(err(400, "model_id is required for a non-fake provider"))
    );
    assert_eq!(
        validate_create_admin_model(&create("L", "openai", "gpt", "\t")),
        Err(err(400, "api_key is required for a non-fake provider"))
    );
    assert_eq!(validate_create_admin_model(&create(" ", "openai", "gpt", "k")), Err(err(400, "label is required")));
    assert_eq!(validate_create_admin_model(&create("L", "openai", "gpt", "k")), Ok(()));
    assert_eq!(validate_create_admin_model(&create("L", "fake", "", "")), Ok(()));
}

#[test]
fn an_admin_model_edit_needs_no_key() {
    let req = UpdateAdminModelRequest {
        label: "L".to_string(),
        provider: "anthropic".to_string(),
        model_id: "sonnet".to_string(),
        api_key: None,
        base_url: None,
    };
    assert_eq!(validate_update_admin_model(&req), Ok(()));
    assert_eq!(key_to_store(&KEY, &None), None);
    assert_eq!(key_to_store(&KEY, &Some(String::new())), None);
    let stored = key_to_store(&KEY, &Some("sk-new".to_string())).unwrap();
    assert_eq!(decrypt(&KEY, &stored).unwrap(), "sk-new");
}

#[test]
fn provider_names_are_read_exactly() {
    assert_eq!(provider_kind_from_str("gemini"), Some(ProviderKind::Gemini));
    assert_eq!(provider_kind_from_str("Gemini"), None);
    assert_eq!(provider_kind_from_str("openrouter"), None);
}

#[test]
fn only_the_first_model_becomes_the_default() {
    assert!(new_model_is_default(0));
    assert!(!new_model_is_default(1));
}

fn model(is_default: bool) -> AdminLlmModel {
    AdminLlmModel {
        id: 1,
        label: "L".to_string(),
        provider: "fake".to_string(),
        model_id: String::new(),
        api_key_encrypted: encrypt(&KEY, "k"),
        base_url: None,
        is_default,
    }
}

#[test]
fn the_default_model_cannot_be_deleted() {
    assert_eq!(check_deletable(&None), Err(DeleteAdminLlmModelError::NotFound));
    assert_eq!(check_deletable(&Some(model(true))), Err(DeleteAdminLlmModelError::IsDefault));
    assert_eq!(check_deletable(&Some(model(false))), Ok(()));
    assert_eq!(
        delete_error_response(&DeleteAdminLlmModelError::IsDefault),
        err(400, "cannot delete the current default; set a different default first")
    );
    assert_eq!(delete_error_response(&DeleteAdminLlmModelError::NotFound), err(404, "model not found"));
    assert_eq!(delete_error_response(&DeleteAdminLlmModelError::Database("x".to_string())), err(500, "failed to delete model"));
}

#[test]
fn promoting_a_missing_model_is_not_found() {
    assert_eq!(check_promoted(0), Err(SetDefaultAdminLlmModelError::NotFound));
    assert_eq!(check_promoted(1), Ok(()));
    assert_eq!(set_default_error_response(&SetDefaultAdminLlmModelError::NotFound), err(404, "model not found"));
    assert_eq!(
        set_default_error_response(&SetDefaultAdminLlmModelError::Database("x".to_string())),
        err(500, "failed to set default")
    );
}

fn fetch(provider: &str, api_key: Option<&str>, existing: Option<u128>) -> FetchProviderModelsRequest {
    FetchProviderModelsRequest {
        provider: provider.to_string(),
        api_key: api_key.map(|s| s.to_string()),
        base_url: None,
        existing_model_id: existing,
    }
}

#[test]
fn the_key_for_listing_models_comes_from_the_request_or_storage() {
    assert_eq!(
        fetch_models_key_source(&fetch("openai", Some("sk"), Some(5))),
        Ok((ProviderKind::OpenAi, KeySource::Given("sk".to_string())))
    );
    assert_eq!(
        fetch_models_key_source(&fetch("fake", None, None)),
        Err(err(400, "api_key is required to fetch models for a new entry"))
    );
    assert_eq!(fetch_models_key_source(&fetch("fake", None, Some(8))), Ok((ProviderKind::Fake, KeySource::Stored(8))));
    assert_eq!(
        fetch_models_key_source(&fetch("fake", Some("any"), None)),
        Ok((ProviderKind::Fake, KeySource::Given("any".to_string())))
    );
    assert_eq!(fetch_models_key_source(&fetch("openai", Some(""), Some(5))), Ok((ProviderKind::OpenAi, KeySource::Stored(5))));
    assert_eq!(
        fetch_models_key_source(&fetch("openai", None, None)),
        Err(err(400, "api_key is required to fetch models for a new entry"))
    );
    assert_eq!(
        fetch_models_key_source(&fetch("bogus", Some("sk"), None)),
        Err(err(400, "unknown provider (expected anthropic, openai, gemini, or fake)"))
    );
}

#[test]
fn a_stored_key_must_exist_and_decrypt() {
    assert_eq!(stored_key(&KEY, None), Err(err(404, "model not found")));
    assert_eq!(stored_key(&KEY, Some(model(false))), Ok("k".to_string()));
    assert_eq!(stored_key(&[1u8; 32], Some(model(false))), Err(err(500, "failed to decrypt stored api key")));
}

#[test]
fn listings_report_models_in_order() {
    let c = listing_config(ProviderKind::Gemini, "k".to_string(), Some("u".to_string()));
    assert_eq!(c.model_id, "");
    let r = fetched_models(vec![
        ModelSummary { id: "a".to_string(), label: None },
        ModelSummary { id: "b".to_string(), label: Some("B".to_string()) },
    ]);
    assert_eq!(r.models.len(), 2);
    assert_eq!(r.models[0].id, "a");
    assert_eq!(r.models[1].label.as_deref(), Some("B"));
}

#[test]
fn a_custom_selection_is_checked_then_stored_encrypted() {
    assert_eq!(check_admin_selection(false), Err(err(404, "model not found")));
    assert_eq!(check_admin_selection(true), Ok(()));
    assert_eq!(
        custom_selection_config("openai", "", "k", &None).unwrap_err(),
        err(400, "model_id is required for a non-fake provider")
    );
    assert_eq!(
        custom_selection_config("openai", "gpt", " ", &None).unwrap_err(),
        err(400, "api_key is required for a non-fake provider")
    );
    let c = custom_selection_config("anthropic", "sonnet", "sk", &Some("u".to_string())).unwrap();
    assert_eq!(c.provider, ProviderKind::Anthropic);
    assert_eq!(c.api_key, "sk");
    let s = custom_selection_to_store(&KEY, "mine".to_string(), "anthropic".to_string(), "sonnet".to_string(), "sk", None);
    assert_eq!(decrypt(&KEY, &s.api_key_encrypted).unwrap(), "sk");
    assert_eq!(s.label, "mine");
}

#[test]
fn user_list_paging_is_clamped() {
    let q = |page: Option<i64>, page_size: Option<i64>| UserListQuery { query: None, page, page_size };
    assert_eq!(user_list_window(&q(None, None)), (20, 0));
    assert_eq!(user_list_window(&q(Some(3), Some(10))), (10, 20));
    assert_eq!(user_list_window(&q(Some(-4), Some(1000))), (100, 0));
    assert_eq!(user_list_window(&q(Some(2), Some(0))), (1, 1));
}

#[test]
fn a_blank_search_is_no_search() {
    assert_eq!(search_term(Some("  ".to_string())), None);
    assert_eq!(search_term(None), None);
    assert_eq!(search_term(Some("ann".to_string())), Some("ann".to_string()));
}

#[test]
fn staff_are_platform_admins_or_admin_grantees() {
    assert!(to_user_summary((1, "a".to_string(), false, true, 2)).is_staff);
    assert!(to_user_summary((1, "a".to_string(), true, false, 2)).is_staff);
    assert!(!to_user_summary((1, "a".to_string(), false, false, 2)).is_staff);
}

#[test]
fn user_management_checks_scope_role_and_permission() {
    assert_eq!(validate_scope_type("org"), Ok(()));
    assert_eq!(validate_scope_type("team"), Err(err(400, "scope_type must be 'admin' or 'org'")));
    assert_eq!(validate_role("member"), Ok(()));
    assert_eq!(validate_role("guest"), Err(err(400, "role must be owner, admin, or member")));
    assert_eq!(require_user_permission(false), Err(err(403, "not authorized to manage users")));
    assert_eq!(require_user_permission(true), Ok(()));
}

#[test]
fn usernames_use_a_small_alphabet() {
    assert_eq!(validate_username(&Some("ann.b_1".to_string())), Ok(()));
    assert_eq!(validate_username(&Some(String::new())), Ok(()));
    assert_eq!(validate_username(&None), Ok(()));
    assert_eq!(
        validate_username(&Some("ann b".to_string())),
        Err(err(400, "username may only contain letters, numbers, underscores, and periods"))
    );
    assert!(validate_username(&Some("änn".to_string())).is_err());
}

#[test]
fn empty_names_keep_the_stored_ones() {
    let (d, u, a) = profile_update_values(UpdateProfileRequest {
        display_name: Some(String::new()),
        username: Some("ann".to_string()),
        avatar_url: Some(String::new()),
    });
    assert_eq!(d, None);
    assert_eq!(u.as_deref(), Some("ann"));
    assert_eq!(a.as_deref(), Some(""));
    let p = profile_response(None, "a@b.c".to_string());
    assert_eq!(p.display_name, None);
    assert_eq!(p.email, "a@b.c");
    assert_eq!(profile_save_error(true), err(409, "that username is already taken"));
    assert_eq!(profile_save_error(false), err(500, "failed to save profile"));
}

#[test]
fn avatars_are_images_with_a_matching_extension() {
    assert_eq!(avatar_extension(true, "image/png"), Ok("png"));
    assert_eq!(avatar_extension(true, "image/jpeg"), Ok("jpg"));
    assert_eq!(avatar_extension(true, "image/webp"), Ok("webp"));
    assert_eq!(avatar_extension(true, "image/gif"), Ok("gif"));
    assert_eq!(
        avatar_extension(true, "image/svg+xml"),
        Err(err(400, "content_type must be an image/png, image/jpeg, image/webp, or image/gif"))
    );
    assert_eq!(avatar_extension(false, "image/png"), Err(err(503, "avatar upload is not configured")));
    let user = uuid::Uuid::parse_str("67e55044-10b1-426f-9247-bb680e5fe0c8").unwrap().as_u128();
    assert_eq!(
        avatar_key(user, 0, "png"),
        "avatars/67e55044-10b1-426f-9247-bb680e5fe0c8/00000000-0000-0000-0000-000000000000.png"
    );
}

#[test]
fn the_theme_defaults_to_system() {
    assert_eq!(preferences_response(None).theme, "system");
    assert_eq!(preferences_response(Some("dark".to_string())).theme, "dark");
    assert_eq!(validate_theme("light"), Ok(()));
    assert_eq!(validate_theme("blue"), Err(err(400, "theme must be 'light', 'dark', or 'system'")));
}

fn agent(name: &str, tools: &[&str]) -> DynamicAgentRequest {
    DynamicAgentRequest {
        name: name.to_string(),
        system_prompt: "You help.".to_string(),
        intent_label: "helper".to_string(),
        intent_description: "Helps.".to_string(),
        granted_tools: tools.iter().map(|t| t.to_string()).collect(),
        supports_todos: false,
        supports_plans: false,
        can_delegate: false,
    }
}

#[test]
fn dynamic_agents_need_their_texts_and_known_tools() {
    let known = vec!["read_file".to_string(), "write_file".to_string()];
    assert_eq!(validate_request(&agent("A", &["read_file"]), &known), Ok(()));
    assert_eq!(validate_request(&agent(" ", &[]), &known), Err(err(400, "name is required")));
    assert_eq!(
        validate_request(&agent("A", &["read_file", "rm_rf"]), &known),
        Err(err(400, "granted_tools contains an unrecognized tool name"))
    );
}

#[test]
fn a_files_size_is_its_utf8_length() {
    assert_eq!(recorded_size("<h1>hi</h1>"), 11);
    assert_eq!(recorded_size("é"), 2);
}

#[test]
fn created_models_store_their_key_encrypted() {
    let m = nomi::routes::llm_models::new_admin_llm_model(&KEY, create("L", "openai", "gpt", "sk-1"), 77);
    assert_eq!(m.label, "L");
    assert_eq!(m.updated_by, 77);
    assert_eq!(decrypt(&KEY, &m.api_key_encrypted).unwrap(), "sk-1");
}

#[test]
fn edits_keep_the_stored_key_unless_a_new_one_is_given() {
    let req = |api_key: Option<&str>| UpdateAdminModelRequest {
        label: "L".to_string(),
        provider: "openai".to_string(),
        model_id: "gpt".to_string(),
        api_key: api_key.map(|k| k.to_string()),
        base_url: Some("u".to_string()),
    };
    let m = nomi::routes::llm_models::update_admin_llm_model_input(&KEY, req(None), 5);
    assert!(m.api_key_encrypted.is_none());
    assert_eq!(m.base_url.as_deref(), Some("u"));
    let m = nomi::routes::llm_models::update_admin_llm_model_input(&KEY, req(Some("sk-2")), 5);
    assert_eq!(decrypt(&KEY, &m.api_key_encrypted.unwrap()).unwrap(), "sk-2");
}

#[test]
fn users_pick_from_every_admin_model_in_order() {
    let mut second = model(true);
    second.id = 2;
    second.label = "Second".to_string();
    let options = nomi::routes::llm_models::user_model_options(&vec![model(false), second]);
    assert_eq!(options.len(), 2);
    assert_eq!(options[0].id, 1);
    assert_eq!(options[1].label, "Second");
    assert_eq!(options[1].provider, "fake");
}

#[test]
fn fetching_models_without_a_key_or_existing_model_id_is_rejected() {
    let r = fetch_models_key_source(&fetch("fake", None, None));
    assert_eq!(r.unwrap_err().status, 400);
}

fn admin_row(label: &str, api_key: &str, is_default: bool) -> AdminLlmModel {
    AdminLlmModel {
        id: 7,
        label: label.to_string(),
        provider: "anthropic".to_string(),
        model_id: "sonnet-5".to_string(),
        api_key_encrypted: encrypt(&KEY, api_key),
        base_url: None,
        is_default,
    }
}

#[test]
fn stored_keys_are_shown_by_their_last_four_characters() {
    assert_eq!(mask_api_key("sk-abcdefgh1234"), "...1234");
    assert_eq!(mask_api_key("sk-original-key9"), "...key9");
    assert_eq!(mask_api_key("abc"), "...abc");
    assert_eq!(mask_api_key(""), "...");
}

#[test]
fn an_admin_model_is_shown_with_its_key_masked() {
    let r = to_response(admin_row("Sonnet", "sk-abcdefgh1234", true), &KEY).unwrap();
    assert_eq!(
        r,
        AdminLlmModelResponse {
            id: 7,
            label: "Sonnet".to_string(),
            provider: "anthropic".to_string(),
            model_id: "sonnet-5".to_string(),
            base_url: None,
            is_default: true,
            api_key_masked: "...1234".to_string(),
        }
    );
    let mut broken = admin_row("Broken", "k", false);
    broken.api_key_encrypted = vec![1, 2, 3];
    assert_eq!(to_response(broken.clone(), &KEY), Err(err(500, "failed to decrypt stored api key")));
    let listed = admin_model_responses(vec![admin_row("A", "sk-original-key9", true)], &KEY).unwrap();
    assert_eq!(listed.len(), 1);
    assert_eq!(listed[0].api_key_masked, "...key9");
    assert_eq!(
        admin_model_responses(vec![admin_row("A", "k", true), broken], &KEY),
        Err(err(500, "failed to decrypt stored api key"))
    );
}

fn custom_row(key: Option<Vec<u8>>) -> UserLlmSelectionRow {
    UserLlmSelectionRow {
        admin_model_id: None,
        custom_label: Some("Mine".to_string()),
        custom_provider: Some("openai".to_string()),
        custom_model_id: Some("gpt-5".to_string()),
        custom_api_key_encrypted: key,
        custom_base_url: None,
    }
}

#[test]
fn a_users_selection_is_shown_by_model_id_or_masked_key() {
    assert!(matches!(selection_response(&KEY, None), Ok(None)));
    let admin = UserLlmSelectionRow { admin_model_id: Some(5), ..custom_row(None) };
    assert_eq!(selection_response(&KEY, Some(admin)), Ok(Some(UserSelectionResponse::Admin { admin_model_id: 5 })));
    assert_eq!(
        selection_response(&KEY, Some(custom_row(Some(encrypt(&KEY, "sk-own-key-5678"))))),
        Ok(Some(UserSelectionResponse::Custom {
            label: "Mine".to_string(),
            provider: "openai".to_string(),
            model_id: "gpt-5".to_string(),
            api_key_masked: "...5678".to_string(),
            base_url: None,
        }))
    );
    assert_eq!(
        selection_response(&KEY, Some(custom_row(None))),
        Err(err(500, "failed to decrypt stored api key"))
    );
    let nothing = UserLlmSelectionRow { custom_provider: None, ..custom_row(None) };
    assert!(matches!(selection_response(&KEY, Some(nothing)), Ok(None)));
}
