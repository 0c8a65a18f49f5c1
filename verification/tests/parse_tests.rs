use gate_opener::parse::{parse_u16, parse_u64, parse_u8};

#[test]
fn parses_plain_and_plus_prefixed_numbers() {
    assert_eq!(parse_u8(b"25"), Some(25));
    assert_eq!(parse_u8(b"+25"), Some(25));
    assert_eq!(parse_u16(b"60000"), Some(60000));
    assert_eq!(parse_u64(b"007"), Some(7));
    assert_eq!(parse_u64(b"18446744073709551615"), Some(u64::MAX));
}

#[test]
fn rejects_what_std_parse_rejects() {
    assert_eq!(parse_u8(b""), None);
    assert_eq!(parse_u8(b"+"), None);
    assert_eq!(parse_u8(b"-1"), None);
    assert_eq!(parse_u8(b"256"), None);
    assert_eq!(parse_u8(b"1a"), None);
    assert_eq!(parse_u8(b" 1"), None);
    assert_eq!(parse_u16(b"65536"), None);
    assert_eq!(parse_u64(b"18446744073709551616"), None);
    assert_eq!(parse_u64(b"99999999999999999999x"), None);
    assert_eq!(parse_u64(b"++1"), None);
}

#[test]
fn agrees_with_std_parse_on_samples() {
    for text in ["0", "+0", "255", "256", "+", "", "12x", "300", "-5", "+65535", "65536"] {
        assert_eq!(parse_u8(text.as_bytes()), text.parse::<u8>().ok(), "u8 {text}");
        assert_eq!(parse_u16(text.as_bytes()), text.parse::<u16>().ok(), "u16 {text}");
        assert_eq!(parse_u64(text.as_bytes()), text.parse::<u64>().ok(), "u64 {text}");
    }
}
