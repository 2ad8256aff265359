use provider_profiles::errors::AppError;
use provider_profiles::merge::{basic_fields_from_input, optional_fields_from_input, tristate_field};

#[test]
fn blank_input_leaves_field_unset() {
    assert_eq!(tristate_field(&"".to_string()), None);
    assert_eq!(tristate_field(&"   ".to_string()), None);
}

#[test]
fn non_blank_input_is_stored_trimmed() {
    assert_eq!(tristate_field(&"  hello  ".to_string()), Some("hello".to_string()));
}

#[test]
fn resubmitting_the_stored_value_keeps_it() {
    let stored = "some value".to_string();
    assert_eq!(tristate_field(&stored), Some(stored.clone()));
}

#[test]
fn empty_name_is_invalid_input() {
    let r = basic_fields_from_input(&"   ".to_string(), &"".to_string());
    assert!(matches!(r, Err(AppError::InvalidInput(_))));
}

#[test]
fn name_is_trimmed_and_blank_website_cleared() {
    let r = basic_fields_from_input(&" My Provider ".to_string(), &"  ".to_string()).unwrap();
    assert_eq!(r.0, "My Provider");
    assert_eq!(r.1, None);
}

#[test]
fn website_is_stored_trimmed() {
    let r = basic_fields_from_input(&"n".to_string(), &" https://x.example ".to_string()).unwrap();
    assert_eq!(r.1, Some("https://x.example".to_string()));
}

#[test]
fn blank_sort_index_is_unset() {
    let o = optional_fields_from_input(&"".to_string(), &"  ".to_string()).unwrap();
    assert_eq!(o.sort_index, None);
    assert_eq!(o.notes, None);
    assert_eq!(o.icon, None);
    assert_eq!(o.icon_color, None);
}

#[test]
fn numeric_sort_index_is_parsed() {
    let o = optional_fields_from_input(&" a note ".to_string(), &" 42 ".to_string()).unwrap();
    assert_eq!(o.sort_index, Some(42));
    assert_eq!(o.notes, Some("a note".to_string()));
}

#[test]
fn zero_sort_index_is_accepted() {
    let o = optional_fields_from_input(&"".to_string(), &"0".to_string()).unwrap();
    assert_eq!(o.sort_index, Some(0));
}

#[test]
fn non_numeric_sort_index_is_invalid_input() {
    let r = optional_fields_from_input(&"".to_string(), &"abc".to_string());
    assert!(matches!(r, Err(AppError::InvalidInput(_))));
    let r = optional_fields_from_input(&"".to_string(), &"-1".to_string());
    assert!(matches!(r, Err(AppError::InvalidInput(_))));
}

#[test]
fn oversized_sort_index_is_invalid_input() {
    let r = optional_fields_from_input(&"".to_string(), &"99999999999999999999999999".to_string());
    assert!(matches!(r, Err(AppError::InvalidInput(_))));
}

#[test]
fn unicode_whitespace_is_trimmed_too() {
    let input = "\u{3000}\u{2003}x\u{3000}".to_string();
    assert_eq!(tristate_field(&input), Some("x".to_string()));
}
