use smt::text::{
    append_decimal, decimal_text, join_texts, parse_u64, same_text, signed_decimal_text,
    two_digits_text,
};

#[test]
fn numbers_in_decimal() {
    assert_eq!(decimal_text(0), "0");
    assert_eq!(decimal_text(1234567890), "1234567890");
    assert_eq!(decimal_text(u64::MAX), "18446744073709551615");
    assert_eq!(signed_decimal_text(-8), "-8");
    assert_eq!(signed_decimal_text(i32::MIN), "-2147483648");
    assert_eq!(signed_decimal_text(7), "7");
    assert_eq!(two_digits_text(7), "07");
    assert_eq!(two_digits_text(42), "42");
    assert_eq!(two_digits_text(100), "100");
    let mut text = "id ".to_string();
    append_decimal(&mut text, 90);
    assert_eq!(text, "id 90");
}

#[test]
fn reading_numbers() {
    assert_eq!(parse_u64("18446744073709551615", 0, 20), Some(u64::MAX));
    assert_eq!(parse_u64("18446744073709551616", 0, 20), None);
    assert_eq!(parse_u64("+5", 0, 2), Some(5));
    assert_eq!(parse_u64("+", 0, 1), None);
    assert_eq!(parse_u64("", 0, 0), None);
    assert_eq!(parse_u64("-5", 0, 2), None);
    assert_eq!(parse_u64("12a", 0, 3), None);
    assert_eq!(parse_u64("x0012y", 1, 5), Some(12));
}

#[test]
fn decimal_reads_back() {
    for n in [0u64, 9, 10, 17607058970, u64::MAX] {
        let text = decimal_text(n);
        assert_eq!(parse_u64(&text, 0, text.len()), Some(n));
    }
}

#[test]
fn joining() {
    let parts = vec!["a".to_string(), "b".to_string(), "c".to_string()];
    assert_eq!(join_texts(&parts, "/"), "a/b/c");
    assert_eq!(join_texts(&parts, ""), "abc");
    assert_eq!(join_texts(&Vec::new(), "/"), "");
    assert!(same_text("歌", "歌"));
    assert!(!same_text("a", "A"));
}
