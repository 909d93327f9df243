use pomodoro_timer::text::{
    concat3, contains_str, decimal_string, padded_string, parse_u32, position_of, str_eq, str_less, trim,
};
use pomodoro_timer::wide::{encode_utf16, fill, wide};

#[test]
fn numbers_print() {
    assert_eq!(decimal_string(0), "0");
    assert_eq!(decimal_string(90210), "90210");
    assert_eq!(padded_string(7, 2), "07");
    assert_eq!(padded_string(123, 2), "123");
    assert_eq!(padded_string(5, 4), "0005");
}

#[test]
fn numbers_parse() {
    assert_eq!(parse_u32("42"), Some(42));
    assert_eq!(parse_u32("007"), Some(7));
    assert_eq!(parse_u32(""), None);
    assert_eq!(parse_u32("4a"), None);
    assert_eq!(parse_u32("-1"), None);
    assert_eq!(parse_u32("4294967295"), Some(4294967295));
    assert_eq!(parse_u32("4294967296"), None);
    for text in ["+5", "+", "12", " 1", "99999999999", "0", "+0042"] {
        assert_eq!(parse_u32(text), text.parse::<u32>().ok());
    }
}

#[test]
fn trimming_and_comparing() {
    assert_eq!(trim("  hi  "), "hi");
    assert_eq!(trim("\t阅读\n"), "阅读");
    assert_eq!(trim("   "), "");
    for text in [" a b ", "\u{3000}番\u{3000}", "x", ""] {
        assert_eq!(trim(text), text.trim());
    }
    assert!(str_less("2024-01-31", "2024-02-01"));
    assert!(!str_less("2024-02-01", "2024-02-01"));
    assert!(str_less("ab", "abc"));
    assert!(str_eq("番茄", "番茄"));
    assert_eq!(concat3("a", "·", "b"), "a·b");
}

#[test]
fn lists_search() {
    let list = vec!["写代码".to_string(), "阅读".to_string(), "阅读".to_string()];
    assert_eq!(position_of(&list, "阅读"), Some(1));
    assert_eq!(position_of(&list, "游戏"), None);
    assert!(contains_str(&list, "写代码"));
}

#[test]
fn wide_strings() {
    assert_eq!(encode_utf16("A番"), vec![0x41, 0x756a]);
    assert_eq!(wide("ok"), vec![0x6f, 0x6b, 0]);
    assert_eq!(encode_utf16("😀"), vec![0xD83D, 0xDE00]);
    assert_eq!(encode_utf16("😀"), "😀".encode_utf16().collect::<Vec<u16>>());
    let mut buf = [9u16; 4];
    fill(&mut buf, "abcdef");
    assert_eq!(buf, [0x61, 0x62, 0x63, 0]);
    let mut buf = [9u16; 6];
    fill(&mut buf, "ab");
    assert_eq!(buf, [0x61, 0x62, 0, 9, 9, 9]);
    let mut one = [9u16; 1];
    fill(&mut one, "ab");
    assert_eq!(one, [0]);
}
