use provider_profiles::codec::{ClaudeSettings, SettingsConfig};
use provider_profiles::errors::AppError;
use provider_profiles::provider::{new_provider, AppType, OptionalFields, Provider};
use provider_profiles::state::{current_timestamp, get_state};
use provider_profiles::store::ProfileStore;

fn provider(id: &str) -> Provider {
    new_provider(
        id.to_string(),
        id.to_string(),
        None,
        AppType::Claude,
        SettingsConfig::Claude(ClaudeSettings {
            auth_token: "sk-1".to_string(),
            base_url: "https://x".to_string(),
            model_default: None,
            model_haiku: None,
            model_sonnet: None,
            model_opus: None,
        }),
        OptionalFields { notes: None, icon: None, icon_color: None, sort_index: None },
        1000,
    )
}

#[test]
fn get_state_accepts_a_well_formed_store() {
    assert!(get_state(ProfileStore::new()).is_ok());
}

#[test]
fn get_state_rejects_a_broken_store() {
    let mut broken = ProfileStore::new();
    broken.claude.active = Some("ghost".to_string());
    assert!(matches!(get_state(broken), Err(AppError::InvalidInput(_))));
}

#[test]
fn operations_through_the_shared_state() {
    let state = get_state(ProfileStore::new()).unwrap();
    let (before, after) = state.add(provider("a")).unwrap();
    assert_eq!(before.claude.providers.len(), 0);
    assert_eq!(after.claude.providers.len(), 1);

    let got = state.get(&"a".to_string()).unwrap();
    assert_eq!(got.id, "a");

    state.set_active(AppType::Claude, &"a".to_string()).unwrap();
    assert_eq!(state.get_active(AppType::Claude).unwrap().id, "a");

    let mut edited = provider("a");
    edited.name = "renamed".to_string();
    state.update(&"a".to_string(), edited).unwrap();
    assert_eq!(state.get(&"a".to_string()).unwrap().name, "renamed");

    let r = state.add(provider("a"));
    assert!(matches!(r, Err(AppError::Conflict)));

    state.remove(&"a".to_string()).unwrap();
    assert!(state.get(&"a".to_string()).is_none());
    assert!(state.get_active(AppType::Claude).is_none());
}

#[test]
fn update_refuses_a_change_of_tool_family() {
    let state = get_state(ProfileStore::new()).unwrap();
    state.add(provider("a")).unwrap();
    let mut moved = provider("a");
    moved.app_type = AppType::Codex;
    moved.settings_config = SettingsConfig::Codex(provider_profiles::codec::CodexSettings {
        api_key: "k".to_string(),
        config_toml: "a = 1".to_string(),
    });
    let r = state.update(&"a".to_string(), moved);
    assert!(matches!(r, Err(AppError::InvalidInput(_))));
    assert_eq!(state.get(&"a".to_string()).unwrap().app_type, AppType::Claude);
}

#[test]
fn failed_persistence_rolls_back_with_the_before_snapshot() {
    let state = get_state(ProfileStore::new()).unwrap();
    state.add(provider("a")).unwrap();
    let (before, after) = state.add(provider("b")).unwrap();
    assert_eq!(after.claude.providers.len(), 2);
    let persisted = false;
    if !persisted {
        state.try_restore(&before).unwrap();
    }
    assert!(state.get(&"b".to_string()).is_none());
    assert!(state.get(&"a".to_string()).is_some());
}

#[test]
fn list_returns_only_the_family() {
    let state = get_state(ProfileStore::new()).unwrap();
    state.add(provider("a")).unwrap();
    assert_eq!(state.list(AppType::Claude).len(), 1);
    assert_eq!(state.list(AppType::Gemini).len(), 0);
}

#[test]
fn snapshot_is_independent_of_later_changes() {
    let state = get_state(ProfileStore::new()).unwrap();
    state.add(provider("a")).unwrap();
    let snap = state.snapshot();
    state.add(provider("b")).unwrap();
    assert_eq!(snap.claude.providers.len(), 1);
    assert_eq!(state.snapshot().claude.providers.len(), 2);
}

#[test]
fn current_timestamp_is_non_negative_and_monotonic_enough() {
    let a = current_timestamp();
    let b = current_timestamp();
    assert!(a >= 0);
    assert!(b >= a);
}

#[test]
fn remove_through_shared_state_of_missing_id_is_not_found() {
    let state = get_state(ProfileStore::new()).unwrap();
    let r = state.remove(&"ghost".to_string());
    assert!(matches!(r, Err(AppError::NotFound)));
}

#[test]
fn try_restore_rejects_a_broken_snapshot() {
    let state = get_state(ProfileStore::new()).unwrap();
    let mut broken = ProfileStore::new();
    broken.gemini.active = Some("ghost".to_string());
    let r = state.try_restore(&broken);
    assert!(matches!(r, Err(AppError::InvalidInput(_))));
}

#[test]
fn error_messages_are_non_empty() {
    assert_eq!(AppError::NotFound.message(), "not found");
    assert_eq!(AppError::Conflict.message(), "conflict");
    assert_eq!(AppError::InvalidInput("bad".to_string()).message(), "bad");
    assert_eq!(AppError::ValidationError("why".to_string()).message(), "why");
    assert_eq!(AppError::PersistenceError("disk".to_string()).message(), "disk");
}
