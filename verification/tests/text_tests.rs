use nockchain_pool::text::{chars_of, concat2, concat3, contains, parse_u64, u64_to_decimal};

#[test]
fn substring_search() {
    assert!(contains("connection refused", "connection"));
    assert!(contains("abc", ""));
    assert!(contains("数据错误: x", "数据"));
    assert!(!contains("abc", "abcd"));
    assert!(!contains("ab", "ba"));
    assert!(contains("xxab", "ab"));
}

#[test]
fn decimal_parsing_follows_u64_from_str() {
    assert_eq!(parse_u64("12345"), Some(12345));
    assert_eq!(parse_u64("+7"), Some(7));
    assert_eq!(parse_u64("007"), Some(7));
    assert_eq!(parse_u64("18446744073709551615"), Some(u64::MAX));
    assert_eq!(parse_u64("18446744073709551616"), None);
    assert_eq!(parse_u64("99999999999999999999"), None);
    assert_eq!(parse_u64(""), None);
    assert_eq!(parse_u64("+"), None);
    assert_eq!(parse_u64("-1"), None);
    assert_eq!(parse_u64("1 "), None);
    assert_eq!(parse_u64("１２"), None);
    for s in ["0", "1", "42", "+0", "18446744073709551615", "x", "++1"] {
        assert_eq!(parse_u64(s), s.parse::<u64>().ok(), "{}", s);
    }
}

#[test]
fn decimal_text() {
    assert_eq!(u64_to_decimal(0), "0");
    assert_eq!(u64_to_decimal(9), "9");
    assert_eq!(u64_to_decimal(10), "10");
    assert_eq!(u64_to_decimal(u64::MAX), u64::MAX.to_string());
}

#[test]
fn concatenation_and_chars() {
    assert_eq!(concat2("a", "b"), "ab");
    assert_eq!(concat3("操作 '", "x", "' 超时"), "操作 'x' 超时");
    assert_eq!(chars_of("数据a"), vec!['数', '据', 'a']);
}
