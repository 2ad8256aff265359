use provider_profiles::ids::generate_provider_id;

#[test]
fn simple_name_becomes_kebab_case() {
    let id = generate_provider_id("Open AI Mirror", &[]);
    assert_eq!(id, "open-ai-mirror");
}

#[test]
fn punctuation_becomes_dashes_and_ends_are_trimmed() {
    let id = generate_provider_id("  *My Provider!*  ", &[]);
    assert_eq!(id, "my-provider");
}

#[test]
fn underscores_and_digits_are_kept() {
    let id = generate_provider_id("prov_42", &[]);
    assert_eq!(id, "prov_42");
}

#[test]
fn collision_appends_first_free_suffix() {
    let existing = vec!["open-ai-mirror".to_string()];
    let id = generate_provider_id("Open AI Mirror", &existing);
    assert_eq!(id, "open-ai-mirror-1");

    let existing = vec![
        "open-ai-mirror".to_string(),
        "open-ai-mirror-1".to_string(),
        "open-ai-mirror-2".to_string(),
    ];
    let id = generate_provider_id("Open AI Mirror", &existing);
    assert_eq!(id, "open-ai-mirror-3");
}

#[test]
fn suffix_search_skips_holes_never_reuses() {
    let existing = vec!["a".to_string(), "a-2".to_string()];
    let id = generate_provider_id("a", &existing);
    assert_eq!(id, "a-1");
}

#[test]
fn result_is_never_in_the_existing_set() {
    let existing: Vec<String> = (0..20)
        .map(|i| {
            if i == 0 {
                "p".to_string()
            } else {
                format!("p-{}", i)
            }
        })
        .collect();
    let id = generate_provider_id("p", &existing);
    assert!(!existing.contains(&id));
    assert_eq!(id, "p-20");
}

#[test]
fn deterministic_for_identical_inputs() {
    let existing = vec!["x".to_string(), "y-1".to_string()];
    let a = generate_provider_id("Some Name", &existing);
    let b = generate_provider_id("Some Name", &existing);
    assert_eq!(a, b);
}

#[test]
fn empty_normalized_name_falls_back_to_dash() {
    let id = generate_provider_id("***", &[]);
    assert_eq!(id, "-");
    let existing = vec!["-".to_string()];
    let id = generate_provider_id("!!!", &existing);
    assert_eq!(id, "--1");
}

#[test]
fn uppercase_is_lowered_before_mapping() {
    let id = generate_provider_id("HELLO World", &[]);
    assert_eq!(id, "hello-world");
}

#[test]
fn non_ascii_letters_are_lowered_and_kept() {
    let id = generate_provider_id("ÉCLAIR Café", &[]);
    assert_eq!(id, "éclair-café");
}
