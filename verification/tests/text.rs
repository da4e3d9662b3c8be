use wx_utils::text::{chars_of, decimal_text, join, replace_all, replace_first, string_of};

#[test]
fn decimal_text_matches_to_string() {
    for n in [0u64, 7, 10, 99, 100, 305, 3600, 1_000_000, u64::MAX] {
        assert_eq!(decimal_text(n), n.to_string());
    }
}

#[test]
fn replace_first_matches_replacen() {
    let cases = [
        ("%d hours", "%d", "5"),
        ("no placeholder", "%d", "5"),
        ("%d and %d", "%d", "1"),
        ("ends with %", "%d", "1"),
        ("", "%d", "1"),
        ("abc", "", "x"),
        ("héllo %d wörld", "%d", "ü"),
    ];
    for (s, pat, text) in cases {
        assert_eq!(replace_first(s, pat, text), s.replacen(pat, text, 1));
    }
}

#[test]
fn replace_all_matches_replace() {
    let cases = [
        ("Set Shortcut for {}", "{}", "Open"),
        ("{}{}{}", "{}", "ab"),
        ("aaa", "aa", "b"),
        ("abc", "", "x"),
        ("", "", "x"),
        ("nothing here", "{}", "x"),
    ];
    for (s, pat, text) in cases {
        assert_eq!(replace_all(s, pat, text), s.replace(pat, text));
    }
}

#[test]
fn join_matches_std_join() {
    let parts: Vec<String> = vec!["1 hour".to_string(), "2 minutes".to_string(), "3 seconds".to_string()];
    assert_eq!(join(&parts, ", "), parts.join(", "));
    assert_eq!(join(&Vec::new(), ", "), "");
    assert_eq!(join(&vec!["only".to_string()], ", "), "only");
}

#[test]
fn chars_round_trip() {
    let s = "Ctrl+Ä";
    let chars = chars_of(s);
    assert_eq!(chars, vec!['C', 't', 'r', 'l', '+', 'Ä']);
    assert_eq!(string_of(&chars), s);
}
