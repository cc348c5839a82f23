use miden_zed::decimal::{parse_u8, u64_to_decimal};
use miden_zed::ipv4::{ipv4_to_string, parse_ipv4};
use miden_zed::text::{same_text, split_text};

#[test]
fn decimal_text_of_numbers() {
    assert_eq!(u64_to_decimal(0), "0");
    assert_eq!(u64_to_decimal(7), "7");
    assert_eq!(u64_to_decimal(4711), "4711");
    assert_eq!(u64_to_decimal(15000), "15000");
    assert_eq!(u64_to_decimal(u64::MAX), u64::MAX.to_string());
}

#[test]
fn parse_u8_follows_from_str() {
    assert_eq!(parse_u8("0"), Some(0));
    assert_eq!(parse_u8("255"), Some(255));
    assert_eq!(parse_u8("007"), Some(7));
    assert_eq!(parse_u8("+12"), Some(12));
    assert_eq!(parse_u8("256"), None);
    assert_eq!(parse_u8("1000"), None);
    assert_eq!(parse_u8(""), None);
    assert_eq!(parse_u8("+"), None);
    assert_eq!(parse_u8("-1"), None);
    assert_eq!(parse_u8(" 1"), None);
    assert_eq!(parse_u8("1a"), None);
    for s in ["", "+", "-0", "0", "9", "10", "99", "100", "255", "256", "+255", "0001", "٣"] {
        assert_eq!(parse_u8(s), s.parse::<u8>().ok(), "{s}");
    }
}

#[test]
fn split_text_matches_str_split() {
    for s in ["", ".", "a", "a.b", "1.2.3.4", "..", "a..b.", ".x"] {
        let expected: Vec<&str> = s.split('.').collect();
        assert_eq!(split_text(s, '.'), expected, "{s}");
    }
}

#[test]
fn same_text_compares() {
    assert!(same_text("miden", "miden"));
    assert!(!same_text("miden", "Miden"));
    assert!(!same_text("", "a"));
}

#[test]
fn parse_ipv4_packs_big_endian() {
    assert_eq!(parse_ipv4("127.0.0.1"), Ok(0x7f00_0001));
    assert_eq!(parse_ipv4("1.2.3.4"), Ok(0x0102_0304));
    assert_eq!(parse_ipv4("255.255.255.255"), Ok(u32::MAX));
    assert_eq!(parse_ipv4("0.0.0.0"), Ok(0));
}

#[test]
fn parse_ipv4_rejects_wrong_piece_count() {
    assert_eq!(
        parse_ipv4("localhost"),
        Err("invalid IPv4 address: localhost".to_string())
    );
    assert_eq!(
        parse_ipv4("1.2.3"),
        Err("invalid IPv4 address: 1.2.3".to_string())
    );
    assert_eq!(
        parse_ipv4("1.2.3.4.5"),
        Err("invalid IPv4 address: 1.2.3.4.5".to_string())
    );
}

#[test]
fn parse_ipv4_reports_first_bad_octet() {
    assert_eq!(
        parse_ipv4("1.256.3.x"),
        Err("invalid IPv4 octet `256` in 1.256.3.x".to_string())
    );
    assert_eq!(
        parse_ipv4("1.2..4"),
        Err("invalid IPv4 octet `` in 1.2..4".to_string())
    );
}

#[test]
fn ipv4_text_round_trip() {
    for x in [0u32, 1, 0x7f00_0001, 0xc0a8_0101, u32::MAX, 0x0a00_00ff] {
        let text = ipv4_to_string(x);
        let b = x.to_be_bytes();
        assert_eq!(text, format!("{}.{}.{}.{}", b[0], b[1], b[2], b[3]));
        assert_eq!(parse_ipv4(&text), Ok(x));
    }
}
