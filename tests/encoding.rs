use wallet_core::encoding::{concat_str, decimal_string, parse_u64};

#[test]
fn decimal_string_formats_numbers() {
    assert_eq!(decimal_string(0), "0");
    assert_eq!(decimal_string(7), "7");
    assert_eq!(decimal_string(10), "10");
    assert_eq!(decimal_string(1234567890), "1234567890");
    assert_eq!(decimal_string(u64::MAX), "18446744073709551615");
}

#[test]
fn parse_u64_accepts_digits_and_plus() {
    assert_eq!(parse_u64("0"), Some(0));
    assert_eq!(parse_u64("42"), Some(42));
    assert_eq!(parse_u64("+7"), Some(7));
    assert_eq!(parse_u64("007"), Some(7));
    assert_eq!(parse_u64("18446744073709551615"), Some(u64::MAX));
}

#[test]
fn parse_u64_rejects_what_std_rejects() {
    for text in ["", "+", "-1", "12a", " 1", "1 ", "18446744073709551616", "99999999999999999999", "++1", "٣"] {
        assert_eq!(parse_u64(text), None, "{}", text);
        assert_eq!(parse_u64(text), text.parse::<u64>().ok(), "{}", text);
    }
}

#[test]
fn parse_u64_agrees_with_std_on_numbers() {
    for n in [0u64, 1, 9, 10, 99, 600, 1_000_000, u64::MAX - 1, u64::MAX] {
        let text = n.to_string();
        assert_eq!(parse_u64(&text), Some(n));
        assert_eq!(decimal_string(n), text);
    }
}

#[test]
fn concat_str_joins() {
    assert_eq!(concat_str("0x", "ab"), "0xab");
    assert_eq!(concat_str("", ""), "");
}
