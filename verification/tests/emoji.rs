use flagmod::emoji::is_flag_emoji;

#[test]
fn two_regional_indicators_are_a_flag() {
    // The pairs forming the German and United States flags.
    assert!(is_flag_emoji("\u{1F1E9}\u{1F1EA}"));
    assert!(is_flag_emoji("\u{1F1FA}\u{1F1F8}"));
}

#[test]
fn range_endpoints_count_as_indicators() {
    assert!(is_flag_emoji("\u{1F1E6}\u{1F1FF}"));
}

#[test]
fn empty_string_is_not_a_flag() {
    assert!(!is_flag_emoji(""));
}

#[test]
fn one_regional_indicator_is_not_a_flag() {
    assert!(!is_flag_emoji("\u{1F1E9}"));
}

#[test]
fn three_regional_indicators_are_not_a_flag() {
    assert!(!is_flag_emoji("\u{1F1E9}\u{1F1EA}\u{1F1EB}"));
}

#[test]
fn an_unrelated_emoji_is_not_a_flag() {
    assert!(!is_flag_emoji("\u{1F600}"));
}

#[test]
fn plain_letters_are_not_a_flag() {
    assert!(!is_flag_emoji("ab"));
}

#[test]
fn an_indicator_with_a_trailing_letter_is_not_a_flag() {
    assert!(!is_flag_emoji("\u{1F1E6}x"));
}

#[test]
fn a_letter_with_a_trailing_indicator_is_not_a_flag() {
    assert!(!is_flag_emoji("x\u{1F1E6}"));
}

#[test]
fn code_points_just_outside_the_range_are_not_indicators() {
    assert!(!is_flag_emoji("\u{1F1E5}\u{1F1E6}"));
    assert!(!is_flag_emoji("\u{1F1E6}\u{200D}"));
}
