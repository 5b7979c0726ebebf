use gaming_hub::text::parse_u32;
use gaming_hub::text::parse_yes_no;
use gaming_hub::text::remove_accents;
use gaming_hub::text::str_eq;
use gaming_hub::text::string_to_chars;

#[test]
fn parses_plain_decimal_numerals() {
    assert_eq!(parse_u32("0"), Some(0));
    assert_eq!(parse_u32("42"), Some(42));
    assert_eq!(parse_u32("100"), Some(100));
    assert_eq!(parse_u32("4294967295"), Some(u32::MAX));
}

#[test]
fn rejects_non_numerals_and_overflow() {
    assert_eq!(parse_u32(""), None);
    assert_eq!(parse_u32("abc"), None);
    assert_eq!(parse_u32("4x"), None);
    assert_eq!(parse_u32("-1"), None);
    assert_eq!(parse_u32("4294967296"), None);
    assert_eq!(parse_u32("99999999999999999999"), None);
}

#[test]
fn replay_answer_is_case_insensitive() {
    assert_eq!(parse_yes_no("y"), Some(true));
    assert_eq!(parse_yes_no("Y"), Some(true));
    assert_eq!(parse_yes_no("n"), Some(false));
    assert_eq!(parse_yes_no("N"), Some(false));
    assert_eq!(parse_yes_no("yes"), None);
    assert_eq!(parse_yes_no(""), None);
}

#[test]
fn character_equality_ignores_nothing() {
    assert!(str_eq("", ""));
    assert!(str_eq("motus", "motus"));
    assert!(!str_eq("motus", "Motus"));
    assert!(!str_eq("left", "leftt"));
}

#[test]
fn characters_come_out_in_order() {
    assert_eq!(string_to_chars("abc"), vec!['a', 'b', 'c']);
    assert_eq!(string_to_chars(""), Vec::<char>::new());
    assert_eq!(string_to_chars("été"), vec!['é', 't', 'é']);
}

#[test]
fn normal_form_is_lowercase_ascii() {
    assert_eq!(remove_accents("Été"), "ete");
    assert_eq!(remove_accents("ARMÉE"), "armee");
    assert_eq!(remove_accents("chat"), "chat");
}
