use provider_profiles::mask::mask_api_key;

#[test]
fn empty_secret_gives_placeholder() {
    assert_eq!(mask_api_key(""), "***");
}

#[test]
fn length_seven_gives_placeholder() {
    assert_eq!(mask_api_key("1234567"), "***");
}

#[test]
fn length_eight_still_gives_placeholder() {
    assert_eq!(mask_api_key("12345678"), "***");
}

#[test]
fn length_nine_shows_ends() {
    assert_eq!(mask_api_key("123456789"), "1234...6789");
}

#[test]
fn length_thirteen_shows_first_and_last_four() {
    assert_eq!(mask_api_key("sk-abcdefghij"), "sk-a...ghij");
}

#[test]
fn middle_characters_never_appear_for_distinct_middle() {
    let secret = "abcdMIDDLEwxyz";
    let masked = mask_api_key(secret);
    assert_eq!(masked, "abcd...wxyz");
    for c in "MIDDLE".chars() {
        assert!(!masked.contains(c));
    }
}
