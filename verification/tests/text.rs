use interactivebackground::text::{
    equals_ignoring_case, same_optional_text, same_text, signed_decimal, trim_non_empty,
    trim_text, unsigned_decimal,
};

#[test]
fn trims_unicode_white_space_from_both_ends() {
    assert_eq!(trim_text("  a b  "), "a b");
    assert_eq!(trim_text("\u{3000}\u{85}görev\u{2029}\t"), "görev");
    assert_eq!(trim_text("\u{200b}x"), "\u{200b}x");
    assert_eq!(trim_text(" \n\t "), "");
    assert_eq!(trim_text(""), "");
    assert_eq!(trim_text(&trim_text("  x  ")), trim_text("  x  "));
}

#[test]
fn drops_texts_that_trim_to_nothing() {
    assert_eq!(trim_non_empty(&None), None);
    assert_eq!(trim_non_empty(&Some("  ".to_string())), None);
    assert_eq!(trim_non_empty(&Some(" Europe/Istanbul ".to_string())), Some("Europe/Istanbul".to_string()));
}

#[test]
fn formats_decimal_numbers() {
    assert_eq!(unsigned_decimal(0), "0");
    assert_eq!(unsigned_decimal(1920), "1920");
    assert_eq!(unsigned_decimal(u64::MAX), u64::MAX.to_string());
    assert_eq!(signed_decimal(-1), "-1");
    assert_eq!(signed_decimal(i64::MIN), i64::MIN.to_string());
    assert_eq!(signed_decimal(1_000_000), "1000000");
}

#[test]
fn compares_texts() {
    assert!(same_text("kanban", "kanban"));
    assert!(!same_text("kanban", "Kanban"));
    assert!(equals_ignoring_case("WeBp", "webp"));
    assert!(!equals_ignoring_case("webq", "webp"));
    assert!(!equals_ignoring_case("İ", "i"));
    assert!(same_optional_text(&None, &None));
    assert!(!same_optional_text(&Some("a".to_string()), &None));
    assert!(same_optional_text(&Some("a".to_string()), &Some("a".to_string())));
}
