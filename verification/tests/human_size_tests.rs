//! Tests of human-readable size parsing.

use papers::human_size::{parse_u32, scale, u32_to_decimal, Bytes};

#[test]
fn scale_multiplies_by_the_unit() {
    assert_eq!(scale(10, "K"), 10_000);
    assert_eq!(scale(10, "M"), 10_000_000);
    assert_eq!(scale(4, "G"), 4_000_000_000);
}

#[test]
fn test_bytes_from_str() {
    let assert = |src, expected: Result<u32, ()>| {
        assert_eq!(Bytes::from_str(src).map(|by| by.0), expected);
    };

    assert("10M", Ok(10_000_000));
    assert("10", Ok(10));
    assert("33", Ok(33));
    assert("1G", Ok(1_000_000_000));
}

#[test]
fn bytes_from_str_accepts_surrounding_whitespace() {
    assert_eq!(Bytes::from_str("  42K ").map(|by| by.0), Ok(42_000));
    assert_eq!(Bytes::from_str("\t7\n").map(|by| by.0), Ok(7));
}

#[test]
fn bytes_from_str_rejects_malformed_input() {
    assert!(Bytes::from_str("").is_err());
    assert!(Bytes::from_str("M").is_err());
    assert!(Bytes::from_str("10 M").is_err());
    assert!(Bytes::from_str("10MM").is_err());
    assert!(Bytes::from_str("-10").is_err());
    assert!(Bytes::from_str("ten").is_err());
    assert!(Bytes::from_str("10k").is_err());
}

#[test]
fn bytes_from_str_rejects_values_past_32_bits() {
    assert!(Bytes::from_str("5000000000").is_err());
    assert!(Bytes::from_str("5M").is_ok());
    assert!(Bytes::from_str("5G").is_err());
    assert_eq!(Bytes::from_str("4G").map(|by| by.0), Ok(4_000_000_000));
}

#[test]
fn human_size_without_unit_roundtrips() {
    let samples: [u32; 8] = [0, 1, 9, 10, 33, 4096, 123_456_789, u32::MAX];
    for quantity in samples {
        let src = format!("{}", quantity);
        assert_eq!(Bytes::from_str(&src).unwrap().0, quantity);
    }
}

#[test]
fn u32_to_decimal_matches_display() {
    let samples: [u32; 6] = [0, 7, 10, 100, 65_535, u32::MAX];
    for n in samples {
        assert_eq!(u32_to_decimal(n), format!("{}", n));
    }
}

#[test]
fn parse_u32_parses_plain_digit_strings() {
    assert_eq!(parse_u32("0"), Some(0));
    assert_eq!(parse_u32("86400"), Some(86_400));
    assert_eq!(parse_u32("4294967295"), Some(u32::MAX));
    assert_eq!(parse_u32("4294967296"), None);
    assert_eq!(parse_u32(""), None);
    assert_eq!(parse_u32(" 5"), None);
    assert_eq!(parse_u32("5x"), None);
}
