use altpay::text::{chars_of, decimal_string, parse_u64, push_decimal, remove_char};

fn parse(s: &str) -> Option<u64> {
    parse_u64(&chars_of(s))
}

#[test]
fn numerals() {
    assert_eq!(decimal_string(0), "0");
    assert_eq!(decimal_string(9), "9");
    assert_eq!(decimal_string(10), "10");
    assert_eq!(decimal_string(18446744073709551615), "18446744073709551615");
    let mut s = String::from("n=");
    push_decimal(&mut s, 42);
    assert_eq!(s, "n=42");
}

#[test]
fn numbers_are_read_as_std_reads_them() {
    for s in [
        "", "+", "-", "0", "+0", "-0", "007", "+12", "1 ", " 1", "1_0", "12a", "++1", "1+1",
        "18446744073709551615", "18446744073709551616", "99999999999999999999999", "\u{0663}",
    ] {
        assert_eq!(parse(s), s.parse::<u64>().ok(), "{:?}", s);
    }
}

#[test]
fn every_numeral_reads_back() {
    for n in [0u64, 1, 10, 99, 100, 65535, 1 << 40, u64::MAX] {
        assert_eq!(parse(&decimal_string(n)), Some(n));
    }
}

#[test]
fn characters_are_taken_out() {
    assert_eq!(remove_char("\"abc\"", '"'), "abc");
    assert_eq!(remove_char("a\\b\\\\c", '\\'), "abc");
    assert_eq!(remove_char("", 'x'), "");
    assert_eq!(remove_char("xxx", 'x'), "");
    assert_eq!(remove_char("\u{e9}x\u{4e2d}", 'x'), "\u{e9}\u{4e2d}");
}

#[test]
fn strings_and_characters() {
    assert_eq!(chars_of("a\u{e9}\u{4e2d}"), vec!['a', '\u{e9}', '\u{4e2d}']);
    assert!(chars_of("").is_empty());
}
