use pjcr::text::{join, pad, sanitized_name, whitespace};

#[test]
fn sanitized_name_replaces_spaces() {
    assert_eq!(sanitized_name("My Cool Project"), "My_Cool_Project");
}

#[test]
fn sanitized_name_accepts_empty_name() {
    assert_eq!(sanitized_name(""), "");
}

#[test]
fn sanitized_name_keeps_clean_name() {
    assert_eq!(sanitized_name("already_clean-1.0"), "already_clean-1.0");
}

#[test]
fn sanitized_name_collapses_runs() {
    assert_eq!(sanitized_name("a  b"), "a_b");
    assert_eq!(sanitized_name("a \t\r\n b"), "a_b");
    assert_eq!(sanitized_name("a  b   c d"), "a_b_c_d");
}

#[test]
fn sanitized_name_keeps_runs_at_both_ends() {
    assert_eq!(sanitized_name(" a "), "_a_");
    assert_eq!(sanitized_name("   a"), "_a");
    assert_eq!(sanitized_name("a   "), "a_");
    assert_eq!(sanitized_name("   "), "_");
}

#[test]
fn sanitized_name_keeps_underscores_of_the_name() {
    assert_eq!(sanitized_name("a_ b"), "a__b");
    assert_eq!(sanitized_name("a _b"), "a__b");
    assert_eq!(sanitized_name("__"), "__");
}

#[test]
fn sanitized_name_knows_unicode_whitespace() {
    assert_eq!(sanitized_name("a\u{00A0}b"), "a_b");
    assert_eq!(sanitized_name("a\u{3000}\u{2003} \u{0085}b"), "a_b");
    assert_eq!(sanitized_name("a\u{2028}b\u{2029}c\u{202F}d\u{205F}e\u{1680}f"), "a_b_c_d_e_f");
}

#[test]
fn sanitized_name_keeps_what_is_no_whitespace() {
    assert_eq!(sanitized_name("a\u{200B}b"), "a\u{200B}b");
    assert_eq!(sanitized_name("a\u{001F}b"), "a\u{001F}b");
    assert_eq!(sanitized_name("caf\u{00E9}\u{1F600}"), "caf\u{00E9}\u{1F600}");
}

#[test]
fn sanitized_name_is_idempotent() {
    let names = ["My Cool Project", "  x  y  ", "", "\t", "a_b", "a\u{00A0}\u{00A0}b", "_ _"];
    for name in names {
        let once = sanitized_name(name);
        let twice = sanitized_name(&once);
        assert_eq!(once, twice);
        assert!(!once.chars().any(char::is_whitespace));
    }
}

#[test]
fn sanitized_name_is_never_longer() {
    let names = ["My Cool Project", "  x  y  ", "", "\t", "a_b"];
    for name in names {
        assert!(sanitized_name(name).chars().count() <= name.chars().count());
    }
}

#[test]
fn whitespace_agrees_with_the_standard_library() {
    let mut code: u32 = 0;
    while code <= 0x10FFFF {
        if let Some(c) = char::from_u32(code) {
            assert_eq!(whitespace(c), c.is_whitespace(), "U+{:04X}", code);
        }
        code += 1;
    }
}

#[test]
fn whitespace_on_chosen_characters() {
    assert!(whitespace(' '));
    assert!(whitespace('\t'));
    assert!(whitespace('\n'));
    assert!(whitespace('\u{000B}'));
    assert!(whitespace('\u{000C}'));
    assert!(whitespace('\r'));
    assert!(whitespace('\u{200A}'));
    assert!(!whitespace('\u{0008}'));
    assert!(!whitespace('\u{000E}'));
    assert!(!whitespace('\u{200B}'));
    assert!(!whitespace('_'));
    assert!(!whitespace('a'));
}

#[test]
fn join_of_nothing_is_empty() {
    let parts: Vec<String> = Vec::new();
    assert_eq!(join(&parts, ", "), "");
}

#[test]
fn join_of_one_part_has_no_separator() {
    let parts = vec!["latex".to_string()];
    assert_eq!(join(&parts, ", "), "latex");
}

#[test]
fn join_puts_separator_between_parts() {
    let parts = vec!["a".to_string(), "b".to_string(), "c".to_string()];
    assert_eq!(join(&parts, ", "), "a, b, c");
    assert_eq!(join(&parts, "\n"), "a\nb\nc");
    assert_eq!(join(&parts, ""), "abc");
}

#[test]
fn join_keeps_empty_parts() {
    let parts = vec!["".to_string(), "x".to_string(), "".to_string()];
    assert_eq!(join(&parts, "\n"), "\nx\n");
    let blanks = vec!["".to_string(), "".to_string()];
    assert_eq!(join(&blanks, "-"), "-");
}

#[test]
fn join_agrees_with_the_standard_library() {
    let parts = vec!["main.aux".to_string(), "".to_string(), "main.log".to_string()];
    assert_eq!(join(&parts, "\n"), parts.join("\n"));
    assert_eq!(join(&parts, ", "), parts.join(", "));
}

#[test]
fn pad_fills_with_spaces() {
    assert_eq!(pad("ab", 5), "ab   ");
    assert_eq!(pad("", 3), "   ");
    assert_eq!(pad("new", 10), "new       ");
}

#[test]
fn pad_keeps_longer_text() {
    assert_eq!(pad("abcdef", 3), "abcdef");
    assert_eq!(pad("abc", 3), "abc");
    assert_eq!(pad("", 0), "");
}

#[test]
fn pad_counts_characters_not_bytes() {
    assert_eq!(pad("\u{00E9}", 3), "\u{00E9}  ");
    assert_eq!(pad("\u{1F600}\u{1F600}", 2), "\u{1F600}\u{1F600}");
}

#[test]
fn pad_agrees_with_formatting() {
    for text in ["", "a", "default", "exactly fifteen", "longer than fifteen"] {
        assert_eq!(pad(text, 15), format!("{:15}", text));
    }
}
