use fusion::text::{is_whitespace, push_decimal, remove_newlines, str_eq, to_single_line, trim_str};

#[test]
fn single_line_joins_words_with_single_spaces() {
    assert_eq!(to_single_line("  .a |\n  .b  \n"), ".a | .b");
    assert_eq!(to_single_line("[.[]\n| .name]"), "[.[]| .name]");
    assert_eq!(to_single_line("x\t\ty"), "x y");
    assert_eq!(to_single_line(""), "");
    assert_eq!(to_single_line(" \n \t "), "");
}

#[test]
fn single_line_glues_words_split_by_a_newline() {
    assert_eq!(to_single_line("ab\ncd"), "abcd");
}

#[test]
fn single_line_twice_is_single_line_once() {
    let once = to_single_line("  map(.x)\n  | add \u{3000} end ");
    assert_eq!(to_single_line(&once), once);
    assert!(!once.contains('\n'));
}

#[test]
fn remove_newlines_keeps_everything_else() {
    assert_eq!(remove_newlines("a\nb \n"), "ab ");
    assert_eq!(remove_newlines("plain"), "plain");
}

#[test]
fn decimal_notation() {
    let mut s = String::from("n=");
    push_decimal(&mut s, 0);
    assert_eq!(s, "n=0");
    let mut s = String::new();
    push_decimal(&mut s, 18446744073709551615);
    assert_eq!(s, "18446744073709551615");
    let mut s = String::new();
    push_decimal(&mut s, 1020);
    assert_eq!(s, "1020");
}

#[test]
fn trim_removes_outer_whitespace_only() {
    assert_eq!(trim_str("  x y \n"), "x y");
    assert_eq!(trim_str("\u{a0}[1]\u{2028}"), "[1]");
    assert_eq!(trim_str("   "), "");
    assert_eq!(trim_str("abc"), "abc");
}

#[test]
fn whitespace_is_the_unicode_property() {
    for c in ['\t', '\n', ' ', '\u{85}', '\u{a0}', '\u{2009}', '\u{3000}'] {
        assert!(is_whitespace(c));
        assert!(c.is_whitespace());
    }
    for c in ['a', '_', '\u{200b}', '\u{feff}'] {
        assert!(!is_whitespace(c));
        assert!(!c.is_whitespace());
    }
}

#[test]
fn string_equality() {
    assert!(str_eq("abc", "abc"));
    assert!(!str_eq("abc", "abd"));
    assert!(!str_eq("ab", "abc"));
    assert!(str_eq("", ""));
}
