use wx_utils::{DIALOG_PADDING, confirmed, entered_number, entered_text, spin_range};

#[test]
fn padding_is_ten_device_independent_pixels() {
    assert_eq!(DIALOG_PADDING, 10);
}

#[test]
fn a_reversed_range_is_raised_to_min() {
    assert_eq!(spin_range(5, 1, 3), (5, 5, 5));
}

#[test]
fn the_initial_value_is_clamped() {
    assert_eq!(spin_range(1, 10, 0), (1, 10, 1));
    assert_eq!(spin_range(1, 10, 11), (1, 10, 10));
    assert_eq!(spin_range(1, 10, 7), (1, 10, 7));
}

#[test]
fn a_text_prompt_hands_back_the_trimmed_entry() {
    assert_eq!(entered_text(5100, 5100, "  hello  "), Some("hello".to_string()));
    assert_eq!(entered_text(5100, 5100, " \t "), None);
    assert_eq!(entered_text(5101, 5100, "hello"), None);
}

#[test]
fn unicode_whitespace_is_trimmed_too() {
    assert_eq!(entered_text(1, 1, "\u{3000}\u{a0}name\u{2003}\n"), Some("name".to_string()));
    assert_eq!(entered_text(1, 1, "\u{85}\u{2028}"), None);
    assert_eq!(entered_text(1, 1, "\u{200b}x"), Some("\u{200b}x".to_string()));
}

#[test]
fn only_yes_confirms() {
    assert!(confirmed(5103, 5103));
    assert!(!confirmed(5104, 5103));
    assert!(!confirmed(5101, 5103));
}

#[test]
fn a_number_prompt_hands_back_its_value_only_when_confirmed() {
    assert_eq!(entered_number(5100, 5100, 42), Some(42));
    assert_eq!(entered_number(5101, 5100, 42), None);
}
