use serial_session::{format_hex, parse_hex, HexError};

#[test]
fn parse_hex_plain_pairs() {
    assert_eq!(parse_hex("A1B2"), Ok(vec![0xA1, 0xB2]));
}

#[test]
fn parse_hex_ignores_separators_and_case() {
    assert_eq!(parse_hex("a1:b2 c3"), Ok(vec![0xA1, 0xB2, 0xC3]));
}

#[test]
fn parse_hex_ignores_unicode_whitespace() {
    assert_eq!(parse_hex("\u{3000}ff\tee\n0\u{A0}1"), Ok(vec![0xFF, 0xEE, 0x01]));
}

#[test]
fn parse_hex_empty_input() {
    assert_eq!(parse_hex(""), Ok(vec![]));
    assert_eq!(parse_hex(" : \t"), Ok(vec![]));
}

#[test]
fn parse_hex_odd_length() {
    assert_eq!(parse_hex("ABC"), Err(HexError::OddLength { digits: 3 }));
    assert_eq!(parse_hex("A B:C"), Err(HexError::OddLength { digits: 3 }));
}

#[test]
fn parse_hex_invalid_pair() {
    assert_eq!(
        parse_hex("ZZ"),
        Err(HexError::InvalidByte { pair: "ZZ".to_string(), index: 0 })
    );
}

#[test]
fn parse_hex_reports_first_invalid_pair() {
    assert_eq!(
        parse_hex("00 G1 ZZ"),
        Err(HexError::InvalidByte { pair: "G1".to_string(), index: 1 })
    );
}

#[test]
fn parse_hex_rejects_sign() {
    assert_eq!(
        parse_hex("+A"),
        Err(HexError::InvalidByte { pair: "+A".to_string(), index: 0 })
    );
}

#[test]
fn parse_hex_non_ascii_pair() {
    assert_eq!(
        parse_hex("0é"),
        Err(HexError::InvalidByte { pair: "0é".to_string(), index: 0 })
    );
}

#[test]
fn format_hex_two_bytes() {
    assert_eq!(format_hex(&[0x41, 0x0A]), "41 0A");
}

#[test]
fn format_hex_empty() {
    assert_eq!(format_hex(&[]), "");
}

#[test]
fn format_hex_extremes() {
    assert_eq!(format_hex(&[0x00]), "00");
    assert_eq!(format_hex(&[0xFF, 0x9A, 0xB0]), "FF 9A B0");
}

#[test]
fn format_then_parse_all_bytes() {
    let bytes: Vec<u8> = (0..=255u8).collect();
    let text = format_hex(&bytes);
    assert_eq!(text.len(), 256 * 3 - 1);
    assert_eq!(parse_hex(&text), Ok(bytes));
}
