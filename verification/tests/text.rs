use actioneer::text::{contains_str, decimal_string, parse_i64};

#[test]
fn decimal_rendering() {
    assert_eq!(decimal_string(0), "0");
    assert_eq!(decimal_string(42), "42");
    assert_eq!(decimal_string(-7), "-7");
    assert_eq!(decimal_string(i64::MAX), i64::MAX.to_string());
    assert_eq!(decimal_string(i64::MIN), i64::MIN.to_string());
}

#[test]
fn decimal_parsing_matches_std() {
    for text in [
        "0", "42", "-42", "+42", "", "-", "+", "1a", " 1", "1 ", "9223372036854775807", "9223372036854775808",
        "-9223372036854775808", "-9223372036854775809", "0007", "--1", "+-1", "99999999999999999999999",
        "١٢",
    ] {
        assert_eq!(parse_i64(text), text.parse::<i64>().ok(), "parsing {:?}", text);
    }
}

#[test]
fn rendering_then_parsing_gives_the_number() {
    for v in [0, 1, -1, 1234567890, i64::MIN, i64::MAX] {
        assert_eq!(parse_i64(&decimal_string(v)), Some(v));
    }
}

#[test]
fn substring_search() {
    assert!(contains_str("abcabd", "abd"));
    assert!(contains_str("abc", ""));
    assert!(!contains_str("ab", "abc"));
    assert!(!contains_str("abcabc", "abd"));
}
