use nomi::bootstrap::{
    after_default_model, after_selected_model, after_selection, embedding_config_from_environment,
    embedding_config_from_settings, embedding_provider_kind_from_str, llm_config_from_environment,
    llm_provider_kind_from_str, model_config_from_admin_model, model_usable_check, selection_usable, AdminLlmModel, EmbeddingProviderKind,
    EmbeddingSettingsRow, LlmConfigStep, UserLlmSelectionRow,
};
use nomi::llm::config::ProviderKind;
use nomi::settings::crypto::encrypt;

const KEY: [u8; 32] = [7u8; 32];
const OTHER_KEY: [u8; 32] = [9u8; 32];

#[test]
fn embedding_provider_kind_from_str_accepts_all_known_providers() {
    assert_eq!(embedding_provider_kind_from_str("openai"), Ok(EmbeddingProviderKind::OpenAi));
    assert_eq!(embedding_provider_kind_from_str("gemini"), Ok(EmbeddingProviderKind::Gemini));
    assert_eq!(embedding_provider_kind_from_str("cohere"), Ok(EmbeddingProviderKind::Cohere));
    assert_eq!(embedding_provider_kind_from_str("fake"), Ok(EmbeddingProviderKind::Fake));
}

#[test]
fn embedding_provider_kind_from_str_rejects_unknown_providers() {
    assert!(embedding_provider_kind_from_str("not-a-real-provider").is_err());
}

#[test]
fn an_unknown_embedding_provider_is_named_in_the_error() {
    assert_eq!(
        embedding_provider_kind_from_str("mistral"),
        Err("unknown embedding provider: mistral (expected openai, gemini, cohere, or fake)".to_string())
    );
}

#[test]
fn llm_provider_names_map_to_their_kinds() {
    assert_eq!(llm_provider_kind_from_str("anthropic"), ProviderKind::Anthropic);
    assert_eq!(llm_provider_kind_from_str("openai"), ProviderKind::OpenAi);
    assert_eq!(llm_provider_kind_from_str("gemini"), ProviderKind::Gemini);
    assert_eq!(llm_provider_kind_from_str("fake"), ProviderKind::Fake);
}

fn admin_model(key: &[u8; 32], api_key: &str) -> AdminLlmModel {
    AdminLlmModel {
        id: 42,
        label: "Sonnet".to_string(),
        provider: "anthropic".to_string(),
        model_id: "sonnet-x".to_string(),
        api_key_encrypted: encrypt(key, api_key),
        base_url: Some("https://proxy.example".to_string()),
        is_default: true,
    }
}

#[test]
fn an_admin_model_gives_its_decrypted_configuration() {
    let config = model_config_from_admin_model(&KEY, admin_model(&KEY, "sk-admin")).unwrap();
    assert_eq!(config.provider, ProviderKind::Anthropic);
    assert_eq!(config.model_id, "sonnet-x");
    assert_eq!(config.api_key, "sk-admin");
    assert_eq!(config.base_url.as_deref(), Some("https://proxy.example"));
}

#[test]
fn an_admin_model_under_a_rotated_key_gives_nothing() {
    assert!(model_config_from_admin_model(&KEY, admin_model(&OTHER_KEY, "sk-admin")).is_none());
}

fn selection(admin_model_id: Option<u128>, custom: Option<(&str, Vec<u8>)>) -> UserLlmSelectionRow {
    UserLlmSelectionRow {
        admin_model_id,
        custom_label: custom.as_ref().map(|_| "mine".to_string()),
        custom_provider: custom.as_ref().map(|(p, _)| p.to_string()),
        custom_model_id: custom.as_ref().map(|_| "gpt-x".to_string()),
        custom_api_key_encrypted: custom.map(|(_, k)| k),
        custom_base_url: None,
    }
}

#[test]
fn a_selected_admin_model_is_looked_up() {
    assert!(matches!(after_selection(&KEY, Some(selection(Some(42), None))), LlmConfigStep::LookUpModel(42)));
}

#[test]
fn a_custom_selection_resolves_with_its_own_key() {
    let step = after_selection(&KEY, Some(selection(None, Some(("openai", encrypt(&KEY, "sk-user"))))));
    match step {
        LlmConfigStep::Resolved(c) => {
            assert_eq!(c.provider, ProviderKind::OpenAi);
            assert_eq!(c.model_id, "gpt-x");
            assert_eq!(c.api_key, "sk-user");
            assert_eq!(c.base_url, None);
        }
        _ => panic!("expected a resolved configuration"),
    }
}

#[test]
fn an_undecryptable_custom_key_falls_back_to_the_default() {
    let step = after_selection(&KEY, Some(selection(None, Some(("openai", encrypt(&OTHER_KEY, "sk-user"))))));
    assert!(matches!(step, LlmConfigStep::LookUpDefault));
}

#[test]
fn no_selection_falls_back_to_the_default() {
    assert!(matches!(after_selection(&KEY, None), LlmConfigStep::LookUpDefault));
    assert!(matches!(after_selection(&KEY, Some(selection(None, None))), LlmConfigStep::LookUpDefault));
}

#[test]
fn a_missing_or_broken_selected_model_falls_back_to_the_default() {
    assert!(matches!(after_selected_model(&KEY, None), LlmConfigStep::LookUpDefault));
    assert!(matches!(after_selected_model(&KEY, Some(admin_model(&OTHER_KEY, "k"))), LlmConfigStep::LookUpDefault));
    assert!(matches!(after_selected_model(&KEY, Some(admin_model(&KEY, "k"))), LlmConfigStep::Resolved(_)));
}

#[test]
fn a_missing_or_broken_default_falls_back_to_the_environment() {
    assert!(matches!(after_default_model(&KEY, None), LlmConfigStep::FromEnvironment));
    assert!(matches!(after_default_model(&KEY, Some(admin_model(&OTHER_KEY, "k"))), LlmConfigStep::FromEnvironment));
    match after_default_model(&KEY, Some(admin_model(&KEY, "sk-default"))) {
        LlmConfigStep::Resolved(c) => assert_eq!(c.api_key, "sk-default"),
        _ => panic!("expected the default model"),
    }
}

#[test]
fn the_environment_fake_provider_needs_no_model_or_key() {
    let c = llm_config_from_environment("fake", None, None, None);
    assert_eq!(c.provider, ProviderKind::Fake);
    assert_eq!(c.model_id, "");
    assert_eq!(c.api_key, "");
    let c = llm_config_from_environment("gemini", Some("g-1".to_string()), Some("k".to_string()), Some("u".to_string()));
    assert_eq!(c.provider, ProviderKind::Gemini);
    assert_eq!(c.model_id, "g-1");
    assert_eq!(c.api_key, "k");
    assert_eq!(c.base_url.as_deref(), Some("u"));
}

#[test]
fn stored_embedding_settings_need_a_good_key_and_a_known_provider() {
    let row = |provider: &str, key: &[u8; 32]| EmbeddingSettingsRow {
        provider: provider.to_string(),
        model_id: "text-embedding-3-small".to_string(),
        api_key_encrypted: encrypt(key, "sk-embed"),
        base_url: None,
    };
    let c = embedding_config_from_settings(&KEY, Some(row("cohere", &KEY))).unwrap();
    assert_eq!(c.provider, EmbeddingProviderKind::Cohere);
    assert_eq!(c.api_key, "sk-embed");
    assert_eq!(c.model_id, "text-embedding-3-small");
    assert!(embedding_config_from_settings(&KEY, Some(row("nope", &KEY))).is_none());
    assert!(embedding_config_from_settings(&KEY, Some(row("openai", &OTHER_KEY))).is_none());
    assert!(embedding_config_from_settings(&KEY, None).is_none());
}

#[test]
fn the_environment_embedding_provider_defaults_to_openai() {
    let c = embedding_config_from_environment(None, Some("m".to_string()), Some("k".to_string()), None);
    assert_eq!(c.provider, EmbeddingProviderKind::OpenAi);
    assert_eq!(c.model_id, "m");
    let c = embedding_config_from_environment(Some("fake".to_string()), None, None, None);
    assert_eq!(c.provider, EmbeddingProviderKind::Fake);
    assert_eq!(c.api_key, "");
}

#[test]
fn a_row_whose_key_does_not_decrypt_falls_back_whatever_provider_it_names() {
    let mut model = admin_model(&OTHER_KEY, "k");
    model.provider = "mystery".to_string();
    assert!(model_config_from_admin_model(&KEY, model.clone()).is_none());
    assert!(matches!(after_selected_model(&KEY, Some(model.clone())), LlmConfigStep::LookUpDefault));
    assert!(matches!(after_default_model(&KEY, Some(model)), LlmConfigStep::FromEnvironment));
    let mut row = selection(None, Some(("mystery", encrypt(&OTHER_KEY, "sk-user"))));
    row.custom_model_id = None;
    assert!(matches!(after_selection(&KEY, Some(row)), LlmConfigStep::LookUpDefault));
}

#[test]
fn rows_are_usable_unless_a_decrypting_key_meets_an_unknown_provider_or_no_model() {
    assert!(model_usable_check(&KEY, &admin_model(&KEY, "k")));
    let mut mystery = admin_model(&KEY, "k");
    mystery.provider = "mystery".to_string();
    assert!(!model_usable_check(&KEY, &mystery));
    mystery.api_key_encrypted = encrypt(&OTHER_KEY, "k");
    assert!(model_usable_check(&KEY, &mystery));

    assert!(selection_usable(&KEY, &selection(Some(42), None)));
    assert!(selection_usable(&KEY, &selection(None, None)));
    assert!(selection_usable(&KEY, &selection(None, Some(("openai", encrypt(&KEY, "sk"))))));
    assert!(!selection_usable(&KEY, &selection(None, Some(("mystery", encrypt(&KEY, "sk"))))));
    assert!(selection_usable(&KEY, &selection(None, Some(("mystery", encrypt(&OTHER_KEY, "sk"))))));
    let mut no_model = selection(None, Some(("openai", encrypt(&KEY, "sk"))));
    no_model.custom_model_id = None;
    assert!(!selection_usable(&KEY, &no_model));
    let mut no_key = selection(None, Some(("openai", encrypt(&KEY, "sk"))));
    no_key.custom_api_key_encrypted = None;
    assert!(!selection_usable(&KEY, &no_key));
}
