use eza_opts::text::{eq_ignore_case, parse_number};

#[test]
fn case_folding_covers_ascii_letters() {
    assert!(eq_ignore_case("AbC", "abc"));
    assert!(eq_ignore_case("abc", "ABC"));
    assert!(eq_ignore_case("", ""));
    assert!(eq_ignore_case("long-iso", "LONG-ISO"));
}

#[test]
fn different_text_does_not_match() {
    assert!(!eq_ignore_case("ab", "abc"));
    assert!(!eq_ignore_case("abc", "abd"));
    assert!(!eq_ignore_case("a", ""));
}

#[test]
fn folding_is_ascii_only() {
    // Non-ASCII letters are compared verbatim.
    assert!(!eq_ignore_case("Ä", "ä"));
    assert!(eq_ignore_case("ä", "ä"));
}

#[test]
fn digits_and_case_markers_unaffected() {
    assert!(eq_ignore_case("age,size", "AGE,SIZE"));
    assert!(!eq_ignore_case("age size", "age,size"));
}

#[test]
fn parses_plain_numbers() {
    assert_eq!(parse_number("0"), Some(0));
    assert_eq!(parse_number("7"), Some(7));
    assert_eq!(parse_number("123"), Some(123));
    assert_eq!(parse_number("4096"), Some(4096));
    assert_eq!(parse_number("007"), Some(7));
}

#[test]
fn rejects_empty_text() {
    assert_eq!(parse_number(""), None);
}

#[test]
fn rejects_signs_and_letters() {
    assert_eq!(parse_number("-3"), None);
    assert_eq!(parse_number("+3"), None);
    assert_eq!(parse_number("1a"), None);
    assert_eq!(parse_number("a1"), None);
    assert_eq!(parse_number(" 1"), None);
}

#[test]
fn rejects_values_that_do_not_fit() {
    assert_eq!(parse_number("99999999999999999999999999999999"), None);
}
