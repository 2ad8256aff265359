use provider_profiles::codec::{
    build_claude_config, build_codex_config, ClaudeInput, CodexInput, CodexSettings,
    SettingsConfig,
};
use provider_profiles::doc::{encode_claude, table_get, doc_get, SectionValue};
use provider_profiles::errors::AppError;
use provider_profiles::ids::generate_provider_id;
use provider_profiles::merge::basic_fields_from_input;
use provider_profiles::provider::{apply_edit, new_provider, AppType, OptionalFields, Provider};
use provider_profiles::store::ProfileStore;
use provider_profiles::summary::summary_fields;

fn no_opts() -> OptionalFields {
    OptionalFields { notes: None, icon: None, icon_color: None, sort_index: None }
}

fn claude_input(token: &str, base: &str) -> ClaudeInput {
    ClaudeInput {
        auth_token: token.to_string(),
        base_url: base.to_string(),
        configure_models: false,
        model_default: String::new(),
        model_haiku: String::new(),
        model_sonnet: String::new(),
        model_opus: String::new(),
    }
}

fn create_mirror(store: &mut ProfileStore) -> Provider {
    let (name, website) =
        basic_fields_from_input(&"Open AI Mirror".to_string(), &"".to_string()).unwrap();
    let settings = build_claude_config(None, &claude_input("sk-ant-XXXX1111", "https://x.example"));
    let existing: Vec<String> = store
        .list(AppType::Claude)
        .iter()
        .map(|p| p.id.clone())
        .collect();
    let id = generate_provider_id(&name, &existing);
    let p = new_provider(
        id,
        name,
        website,
        AppType::Claude,
        SettingsConfig::Claude(settings),
        no_opts(),
        1000,
    );
    store.add(p.duplicate()).unwrap();
    p
}

#[test]
fn create_claude_profile_with_masked_summary() {
    let mut store = ProfileStore::new();
    let p = create_mirror(&mut store);
    assert_eq!(p.id, "open-ai-mirror");
    let summary = summary_fields(&p);
    assert_eq!(summary.masked_key, Some("sk-a...1111".to_string()));
    assert_eq!(summary.base_url, Some("https://x.example".to_string()));
    assert_eq!(summary.name, "Open AI Mirror");
}

#[test]
fn second_profile_with_same_name_gets_suffixed_id() {
    let mut store = ProfileStore::new();
    create_mirror(&mut store);
    let existing: Vec<String> = store
        .list(AppType::Claude)
        .iter()
        .map(|p| p.id.clone())
        .collect();
    let id = generate_provider_id("Open AI Mirror", &existing);
    assert_eq!(id, "open-ai-mirror-1");
}

#[test]
fn edit_keeps_prefilled_token_and_clearing_base_url_removes_it() {
    let mut store = ProfileStore::new();
    let p = create_mirror(&mut store);
    let existing_settings = match &p.settings_config {
        SettingsConfig::Claude(c) => c,
        _ => unreachable!(),
    };
    // The token prompt is pre-filled with the stored value and submitted
    // unchanged; the base URL is cleared to blank.
    let edited_settings =
        build_claude_config(Some(existing_settings), &claude_input("sk-ant-XXXX1111", ""));
    assert_eq!(edited_settings.auth_token, "sk-ant-XXXX1111");
    let doc = encode_claude(&edited_settings);
    let env = match doc_get(&doc, &"env".to_string()) {
        Some(SectionValue::Table(t)) => t,
        _ => panic!("no env table"),
    };
    assert_eq!(table_get(&env, &"ANTHROPIC_BASE_URL".to_string()), None);
    assert_eq!(
        table_get(&env, &"ANTHROPIC_AUTH_TOKEN".to_string()),
        Some("sk-ant-XXXX1111".to_string())
    );
    let edited = apply_edit(
        &p,
        p.name.clone(),
        None,
        SettingsConfig::Claude(edited_settings),
        no_opts(),
        2000,
    );
    assert_eq!(edited.id, p.id);
    store.update(&p.id, edited).unwrap();
    assert_eq!(store.get(&p.id).unwrap().id, "open-ai-mirror");
}

#[test]
fn invalid_structured_text_rejects_the_edit_and_leaves_the_store_untouched() {
    let mut store = ProfileStore::new();
    let settings = CodexSettings {
        api_key: "sk-codex".to_string(),
        config_toml: "model = \"m\"".to_string(),
    };
    let p = new_provider(
        "codex-prof".to_string(),
        "Codex Prof".to_string(),
        None,
        AppType::Codex,
        SettingsConfig::Codex(CodexSettings {
            api_key: settings.api_key.clone(),
            config_toml: settings.config_toml.clone(),
        }),
        no_opts(),
        1000,
    );
    store.add(p).unwrap();
    let input = CodexInput {
        api_key: "sk-codex".to_string(),
        use_default: false,
        entered_lines: vec!["base_url = \"x\"".to_string(), "model = [1,2".to_string()],
    };
    let r = build_codex_config(Some(&settings), &input);
    assert!(matches!(r, Err(AppError::ValidationError(_))));
    // The edit never reached the store; the stored profile is untouched.
    let stored = store.get(&"codex-prof".to_string()).unwrap();
    match &stored.settings_config {
        SettingsConfig::Codex(c) => assert_eq!(c.config_toml, "model = \"m\""),
        _ => panic!("wrong family"),
    }
    assert_eq!(stored.updated_at, 1000);
}
