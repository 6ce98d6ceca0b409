use mocknet::decimal::{i64_to_string, parse_i32, parse_trimmed_u64, parse_u64, u64_to_string};

#[test]
fn writes_decimal_text() {
    for n in [0u64, 7, 10, 99, 100, 4789, 1234567890, u64::MAX] {
        assert_eq!(u64_to_string(n), n.to_string());
    }
    for n in [0i64, -1, 42, -4789, i64::MIN, i64::MAX] {
        assert_eq!(i64_to_string(n), n.to_string());
    }
}

#[test]
fn reads_decimal_text_like_parse() {
    for s in ["0", "+0", "12", "+12", "-12", "", "+", "1_0", "007", "18446744073709551615", "18446744073709551616", "99999999999999999999999"] {
        assert_eq!(parse_u64(s.as_bytes()), s.parse::<u64>().ok(), "{}", s);
    }
    for s in ["0", "-0", "+5", "-5", "2147483647", "2147483648", "-2147483648", "-2147483649", "-", "", "1e3", "65535"] {
        assert_eq!(parse_i32(s.as_bytes()), s.parse::<i32>().ok(), "{}", s);
    }
}

#[test]
fn trims_before_reading() {
    assert_eq!(parse_trimmed_u64("\t 31 \n"), Some(31));
    assert_eq!(parse_trimmed_u64(" \x0b31\x0c"), Some(31));
    assert_eq!(parse_trimmed_u64("   "), None);
    for s in ["\u{a0}42\u{3000}", "\u{2009}7\u{85}", "\u{200b}7", "é7", "\u{1680}\u{2028}\u{2029}\u{202f}\u{205f}1 2"] {
        assert_eq!(parse_trimmed_u64(s), s.trim().parse::<u64>().ok(), "{:?}", s);
    }
}
