use provider_profiles::codec::{ClaudeSettings, CodexSettings, GeminiSettings, SettingsConfig};
use provider_profiles::doc::{
    decode_claude, decode_codex, detect_gemini_auth, doc_get, encode_claude, encode_codex,
    encode_gemini, encode_settings, table_get, GeminiAuthKind, SectionValue,
};

fn claude(token: &str, base: &str, model: Option<&str>) -> ClaudeSettings {
    ClaudeSettings {
        auth_token: token.to_string(),
        base_url: base.to_string(),
        model_default: model.map(|m| m.to_string()),
        model_haiku: None,
        model_sonnet: None,
        model_opus: None,
    }
}

fn env_table(d: &Vec<(String, SectionValue)>) -> Vec<(String, String)> {
    match doc_get(d, &"env".to_string()) {
        Some(SectionValue::Table(t)) => t,
        _ => panic!("no env table"),
    }
}

#[test]
fn claude_set_fields_have_entries() {
    let d = encode_claude(&claude("sk-1", "https://x", Some("m1")));
    let env = env_table(&d);
    assert_eq!(table_get(&env, &"ANTHROPIC_AUTH_TOKEN".to_string()), Some("sk-1".to_string()));
    assert_eq!(table_get(&env, &"ANTHROPIC_BASE_URL".to_string()), Some("https://x".to_string()));
    assert_eq!(table_get(&env, &"ANTHROPIC_MODEL".to_string()), Some("m1".to_string()));
}

#[test]
fn cleared_field_is_absent_not_empty() {
    let d = encode_claude(&claude("sk-1", "", None));
    let env = env_table(&d);
    assert_eq!(table_get(&env, &"ANTHROPIC_BASE_URL".to_string()), None);
    assert_eq!(table_get(&env, &"ANTHROPIC_MODEL".to_string()), None);
    for (k, v) in &env {
        assert!(!v.is_empty(), "entry {} must not be stored empty", k);
    }
    assert_eq!(env.len(), 1);
}

#[test]
fn claude_roundtrip_reads_fields_back() {
    let d = encode_claude(&claude("sk-1", "https://x", Some("m1")));
    let f = decode_claude(&d);
    assert_eq!(f.auth_token, Some("sk-1".to_string()));
    assert_eq!(f.base_url, Some("https://x".to_string()));
    assert_eq!(f.model_default, Some("m1".to_string()));
    assert_eq!(f.model_haiku, None);
}

#[test]
fn codex_roundtrip_reads_fields_back() {
    let s = CodexSettings {
        api_key: "sk-c".to_string(),
        config_toml: "model = \"m\"".to_string(),
    };
    let d = encode_codex(&s);
    let f = decode_codex(&d);
    assert_eq!(f.api_key, Some("sk-c".to_string()));
    assert_eq!(f.config_toml, Some("model = \"m\"".to_string()));
}

#[test]
fn encode_settings_dispatches_by_family() {
    let d = encode_settings(&SettingsConfig::Codex(CodexSettings {
        api_key: "k".to_string(),
        config_toml: "a = 1".to_string(),
    }));
    assert_eq!(d.len(), 2);
    assert_eq!(d[0].0, "auth");
    assert_eq!(d[1].0, "config");
}

#[test]
fn detect_oauth_for_empty_env() {
    let d = encode_gemini(&GeminiSettings::Oauth);
    assert_eq!(detect_gemini_auth(&d), GeminiAuthKind::Oauth);
}

#[test]
fn detect_oauth_for_missing_env() {
    let d: Vec<(String, SectionValue)> = Vec::new();
    assert_eq!(detect_gemini_auth(&d), GeminiAuthKind::Oauth);
}

#[test]
fn detect_packycode_by_gateway_marker() {
    let d = encode_gemini(&GeminiSettings::Packycode {
        api_key: "pk-1".to_string(),
        base_url: "https://packycode.com/api".to_string(),
    });
    assert_eq!(detect_gemini_auth(&d), GeminiAuthKind::Packycode);
}

#[test]
fn hosted_gateway_without_marker_reads_back_generic() {
    let d = encode_gemini(&GeminiSettings::Packycode {
        api_key: "pk-1".to_string(),
        base_url: "https://other.example".to_string(),
    });
    assert_eq!(detect_gemini_auth(&d), GeminiAuthKind::Generic);
}

#[test]
fn detect_generic_for_plain_key() {
    let d = encode_gemini(&GeminiSettings::Generic {
        api_key: "AIza1".to_string(),
        base_url: "https://g.example".to_string(),
    });
    assert_eq!(detect_gemini_auth(&d), GeminiAuthKind::Generic);
}

#[test]
fn detect_unknown_for_key_less_non_empty_env() {
    let env = vec![("SOMETHING_ELSE".to_string(), "x".to_string())];
    let d = vec![("env".to_string(), SectionValue::Table(env))];
    assert_eq!(detect_gemini_auth(&d), GeminiAuthKind::Unknown);
}
