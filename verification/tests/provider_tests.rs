use provider_profiles::codec::{
    build_claude_config, ClaudeInput, ClaudeSettings, CodexSettings, SettingsConfig,
};
use provider_profiles::provider::{apply_edit, new_provider, AppType, OptionalFields, Provider};
use provider_profiles::merge::{optional_fields_from_input, tristate_field};
use provider_profiles::summary::summary_fields;

fn sample() -> Provider {
    new_provider(
        "p1".to_string(),
        "P One".to_string(),
        Some("https://p.example".to_string()),
        AppType::Claude,
        SettingsConfig::Claude(ClaudeSettings {
            auth_token: "sk-abcdefghij".to_string(),
            base_url: "https://x".to_string(),
            model_default: Some("m1".to_string()),
            model_haiku: None,
            model_sonnet: None,
            model_opus: None,
        }),
        OptionalFields {
            notes: Some("note".to_string()),
            icon: Some("star".to_string()),
            icon_color: None,
            sort_index: Some(3),
        },
        1000,
    )
}

#[test]
fn from_provider_extracts_the_optional_fields() {
    let p = sample();
    let o = OptionalFields::from_provider(&p);
    assert_eq!(o.notes, Some("note".to_string()));
    assert_eq!(o.icon, Some("star".to_string()));
    assert_eq!(o.icon_color, None);
    assert_eq!(o.sort_index, Some(3));
}

#[test]
fn default_optional_fields_are_all_unset() {
    let o = OptionalFields::default();
    assert_eq!(o.notes, None);
    assert_eq!(o.icon, None);
    assert_eq!(o.icon_color, None);
    assert_eq!(o.sort_index, None);
}

#[test]
fn new_provider_starts_with_equal_timestamps() {
    let p = sample();
    assert_eq!(p.created_at, 1000);
    assert_eq!(p.updated_at, 1000);
}

#[test]
fn editing_never_changes_id_family_or_creation_time() {
    let p = sample();
    let edited = apply_edit(
        &p,
        "New Name".to_string(),
        None,
        SettingsConfig::Claude(ClaudeSettings {
            auth_token: "sk-other".to_string(),
            base_url: "https://y".to_string(),
            model_default: None,
            model_haiku: None,
            model_sonnet: None,
            model_opus: None,
        }),
        OptionalFields { notes: None, icon: None, icon_color: None, sort_index: None },
        2000,
    );
    assert_eq!(edited.id, "p1");
    assert_eq!(edited.app_type, AppType::Claude);
    assert_eq!(edited.created_at, 1000);
    assert_eq!(edited.updated_at, 2000);
    assert_eq!(edited.name, "New Name");
}

#[test]
fn resubmitting_every_prefilled_value_leaves_the_profile_unchanged() {
    let p = sample();
    let existing = match &p.settings_config {
        SettingsConfig::Claude(c) => c,
        _ => unreachable!(),
    };
    // Each prompt is pre-filled with the stored value and submitted as is.
    let input = ClaudeInput {
        auth_token: existing.auth_token.clone(),
        base_url: existing.base_url.clone(),
        configure_models: true,
        model_default: existing.model_default.clone().unwrap_or_default(),
        model_haiku: existing.model_haiku.clone().unwrap_or_default(),
        model_sonnet: existing.model_sonnet.clone().unwrap_or_default(),
        model_opus: existing.model_opus.clone().unwrap_or_default(),
    };
    let rebuilt = build_claude_config(Some(existing), &input);
    let name = tristate_field(&p.name).unwrap();
    let website = tristate_field(&p.website_url.clone().unwrap_or_default());
    let opts = optional_fields_from_input(
        &p.notes.clone().unwrap_or_default(),
        &p.sort_index.map(|i| i.to_string()).unwrap_or_default(),
    )
    .unwrap();
    let edited = apply_edit(
        &p,
        name,
        website,
        SettingsConfig::Claude(rebuilt),
        OptionalFields {
            notes: opts.notes,
            icon: p.icon.clone(),
            icon_color: p.icon_color.clone(),
            sort_index: opts.sort_index,
        },
        2000,
    );
    assert_eq!(edited.id, p.id);
    assert_eq!(edited.name, p.name);
    assert_eq!(edited.website_url, p.website_url);
    assert_eq!(edited.notes, p.notes);
    assert_eq!(edited.icon, p.icon);
    assert_eq!(edited.icon_color, p.icon_color);
    assert_eq!(edited.sort_index, p.sort_index);
    assert_eq!(edited.created_at, p.created_at);
    match (&edited.settings_config, &p.settings_config) {
        (SettingsConfig::Claude(a), SettingsConfig::Claude(b)) => {
            assert_eq!(a.auth_token, b.auth_token);
            assert_eq!(a.base_url, b.base_url);
            assert_eq!(a.model_default, b.model_default);
            assert_eq!(a.model_haiku, b.model_haiku);
            assert_eq!(a.model_sonnet, b.model_sonnet);
            assert_eq!(a.model_opus, b.model_opus);
        },
        _ => panic!("wrong family"),
    }
    // Only the update timestamp moved.
    assert_eq!(edited.updated_at, 2000);
}

#[test]
fn summary_shows_masked_key_model_and_optional_fields() {
    let p = sample();
    let s = summary_fields(&p);
    assert_eq!(s.id, "p1");
    assert_eq!(s.name, "P One");
    assert_eq!(s.website_url, Some("https://p.example".to_string()));
    assert_eq!(s.masked_key, Some("sk-a...ghij".to_string()));
    assert_eq!(s.base_url, Some("https://x".to_string()));
    assert_eq!(s.model, Some("m1".to_string()));
    assert_eq!(s.config_lines, None);
    assert_eq!(s.notes, Some("note".to_string()));
    assert_eq!(s.sort_index, Some(3));
}

#[test]
fn summary_counts_config_lines_for_the_codex_family() {
    let p = new_provider(
        "c1".to_string(),
        "C".to_string(),
        None,
        AppType::Codex,
        SettingsConfig::Codex(CodexSettings {
            api_key: "short".to_string(),
            config_toml: "a = 1\nb = 2\nc = 3".to_string(),
        }),
        OptionalFields { notes: None, icon: None, icon_color: None, sort_index: None },
        1000,
    );
    let s = summary_fields(&p);
    assert_eq!(s.config_lines, Some(3));
    // A secret of eight characters or fewer is fully hidden.
    assert_eq!(s.masked_key, Some("***".to_string()));
    assert_eq!(s.base_url, None);
    assert_eq!(s.model, None);
}
