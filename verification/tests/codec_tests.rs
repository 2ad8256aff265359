use provider_profiles::codec::{
    build_claude_config, build_codex_config, build_gemini_config, default_codex_toml,
    ClaudeInput, ClaudeSettings, CodexInput, CodexSettings, GeminiAuthChoice, GeminiInput,
    GeminiSettings,
};
use provider_profiles::errors::AppError;

fn claude_input(token: &str, base: &str) -> ClaudeInput {
    ClaudeInput {
        auth_token: token.to_string(),
        base_url: base.to_string(),
        configure_models: false,
        model_default: String::new(),
        model_haiku: String::new(),
        model_sonnet: String::new(),
        model_opus: String::new(),
    }
}

#[test]
fn claude_required_fields_are_trimmed() {
    let s = build_claude_config(None, &claude_input("  sk-1  ", " https://x "));
    assert_eq!(s.auth_token, "sk-1");
    assert_eq!(s.base_url, "https://x");
    assert_eq!(s.model_default, None);
}

#[test]
fn claude_skipping_model_prompts_keeps_existing_overrides() {
    let existing = ClaudeSettings {
        auth_token: "sk-1".to_string(),
        base_url: "https://x".to_string(),
        model_default: Some("m1".to_string()),
        model_haiku: None,
        model_sonnet: Some("m3".to_string()),
        model_opus: None,
    };
    let s = build_claude_config(Some(&existing), &claude_input("sk-1", "https://x"));
    assert_eq!(s.model_default, Some("m1".to_string()));
    assert_eq!(s.model_haiku, None);
    assert_eq!(s.model_sonnet, Some("m3".to_string()));
    assert_eq!(s.model_opus, None);
}

#[test]
fn claude_blank_model_input_clears_the_override() {
    let existing = ClaudeSettings {
        auth_token: "sk-1".to_string(),
        base_url: "https://x".to_string(),
        model_default: Some("m1".to_string()),
        model_haiku: None,
        model_sonnet: None,
        model_opus: None,
    };
    let mut input = claude_input("sk-1", "https://x");
    input.configure_models = true;
    input.model_haiku = " new-haiku ".to_string();
    let s = build_claude_config(Some(&existing), &input);
    assert_eq!(s.model_default, None);
    assert_eq!(s.model_haiku, Some("new-haiku".to_string()));
}

#[test]
fn codex_accepting_the_offered_default_keeps_previous_config() {
    let existing = CodexSettings {
        api_key: "sk-old".to_string(),
        config_toml: "model = \"gpt-4\"".to_string(),
    };
    let input = CodexInput {
        api_key: " sk-new ".to_string(),
        use_default: true,
        entered_lines: vec!["ignored = true".to_string()],
    };
    let s = build_codex_config(Some(&existing), &input).unwrap();
    assert_eq!(s.api_key, "sk-new");
    assert_eq!(s.config_toml, "model = \"gpt-4\"");
}

#[test]
fn codex_without_existing_config_uses_builtin_default() {
    let input = CodexInput {
        api_key: "sk-1".to_string(),
        use_default: true,
        entered_lines: Vec::new(),
    };
    let s = build_codex_config(None, &input).unwrap();
    assert_eq!(s.config_toml, default_codex_toml());
}

#[test]
fn codex_entered_lines_are_joined_and_validated() {
    let input = CodexInput {
        api_key: "sk-1".to_string(),
        use_default: false,
        entered_lines: vec![
            "base_url = \"https://api.example\"".to_string(),
            "model = \"m\"".to_string(),
        ],
    };
    let s = build_codex_config(None, &input).unwrap();
    assert_eq!(s.config_toml, "base_url = \"https://api.example\"\nmodel = \"m\"");
}

#[test]
fn codex_no_entered_lines_falls_back_to_default() {
    let input = CodexInput {
        api_key: "sk-1".to_string(),
        use_default: false,
        entered_lines: Vec::new(),
    };
    let s = build_codex_config(None, &input).unwrap();
    assert_eq!(s.config_toml, default_codex_toml());
}

#[test]
fn codex_invalid_toml_is_a_validation_error() {
    let input = CodexInput {
        api_key: "sk-1".to_string(),
        use_default: false,
        entered_lines: vec!["base_url = \"x\"".to_string(), "model = [1,2".to_string()],
    };
    let r = build_codex_config(None, &input);
    match r {
        Err(AppError::ValidationError(msg)) => assert!(!msg.is_empty()),
        other => panic!("expected a validation error, got {:?}", other),
    }
}

#[test]
fn gemini_oauth_stores_no_secrets() {
    let input = GeminiInput {
        choice: GeminiAuthChoice::Oauth,
        api_key: "ignored".to_string(),
        base_url: "ignored".to_string(),
    };
    let s = build_gemini_config(&input);
    assert!(matches!(s, GeminiSettings::Oauth));
}

#[test]
fn gemini_key_modes_store_trimmed_fields() {
    let input = GeminiInput {
        choice: GeminiAuthChoice::Packycode,
        api_key: " pk-1 ".to_string(),
        base_url: " https://packycode.com/api ".to_string(),
    };
    match build_gemini_config(&input) {
        GeminiSettings::Packycode { api_key, base_url } => {
            assert_eq!(api_key, "pk-1");
            assert_eq!(base_url, "https://packycode.com/api");
        },
        other => panic!("expected the hosted-gateway mode, got {:?}", kind_name(&other)),
    }
    let input = GeminiInput {
        choice: GeminiAuthChoice::Generic,
        api_key: "AIza1".to_string(),
        base_url: "https://g.example".to_string(),
    };
    match build_gemini_config(&input) {
        GeminiSettings::Generic { api_key, base_url } => {
            assert_eq!(api_key, "AIza1");
            assert_eq!(base_url, "https://g.example");
        },
        other => panic!("expected the generic mode, got {:?}", kind_name(&other)),
    }
}

fn kind_name(s: &GeminiSettings) -> &'static str {
    match s {
        GeminiSettings::Oauth => "oauth",
        GeminiSettings::Packycode { .. } => "packycode",
        GeminiSettings::Generic { .. } => "generic",
    }
}
