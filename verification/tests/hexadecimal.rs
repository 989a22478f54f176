use borker_rs::hexadecimal::parse_hex;
use borker_rs::DecodeError;

#[test]
fn parse_hex_reads_two_digits_to_the_byte() {
    assert_eq!(parse_hex(""), Ok(vec![]));
    assert_eq!(parse_hex("00"), Ok(vec![0x00]));
    assert_eq!(parse_hex("0f"), Ok(vec![0x0F]));
    assert_eq!(parse_hex("f0"), Ok(vec![0xF0]));
    assert_eq!(parse_hex("ff"), Ok(vec![0xFF]));
    assert_eq!(
        parse_hex("0123456789abcdef"),
        Ok(vec![0x01, 0x23, 0x45, 0x67, 0x89, 0xAB, 0xCD, 0xEF])
    );
    assert_eq!(parse_hex("48656c6c6f"), Ok(b"Hello".to_vec()));
}

#[test]
fn parse_hex_reads_digits_of_either_case() {
    assert_eq!(parse_hex("ABCDEF"), Ok(vec![0xAB, 0xCD, 0xEF]));
    assert_eq!(parse_hex("aBcDeF"), Ok(vec![0xAB, 0xCD, 0xEF]));
    assert_eq!(parse_hex("Aa"), Ok(vec![0xAA]));
    assert_eq!(parse_hex("9A"), Ok(vec![0x9A]));
    assert_eq!(parse_hex("a9"), Ok(vec![0xA9]));
}

#[test]
fn parse_hex_refuses_an_odd_length() {
    assert_eq!(parse_hex("0"), Err(DecodeError::InvalidHex));
    assert_eq!(parse_hex("abc"), Err(DecodeError::InvalidHex));
}

#[test]
fn parse_hex_refuses_what_is_no_digit() {
    for text in ["0g", "g0", "0G", " 0", "0 ", "0x", "-1", "/0", ":0", "@0", "`0", "0\n", "+f"] {
        assert_eq!(parse_hex(text), Err(DecodeError::InvalidHex), "{:?}", text);
    }
    assert_eq!(parse_hex("é"), Err(DecodeError::InvalidHex));
    assert_eq!(parse_hex("0é1"), Err(DecodeError::InvalidHex));
    assert_eq!(parse_hex("００"), Err(DecodeError::InvalidHex));
}
