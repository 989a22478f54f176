//! Bytes written as hexadecimal text, read with the `hex` crate.

use vstd::prelude::*;
use vstd::utf8::encode_utf8;
use crate::error::DecodeError;

verus! {

/// `hex::FromHexError`, the reason why `hex::decode` refuses a text. It is
/// never looked into.
#[verifier::external_type_specification]
#[verifier::external_body]
pub struct ExFromHexError(hex::FromHexError);

/// The value of a hexadecimal digit given as a byte of text.
pub open spec fn hex_digit(c: u8) -> Option<u8> {
    if 0x30 <= c <= 0x39 {
        Some((c - 0x30) as u8)
    } else if 0x41 <= c <= 0x46 {
        Some((c - 0x41 + 10) as u8)
    } else if 0x61 <= c <= 0x66 {
        Some((c - 0x61 + 10) as u8)
    } else {
        None
    }
}

/// The bytes that a text of hexadecimal digits stands for, two digits to the
/// byte, the high one first. A text of odd length, or with a byte that is no
/// digit, stands for nothing.
pub open spec fn spec_hex_decode(text: Seq<u8>) -> Option<Seq<u8>> {
    if text.len() % 2 == 0 && forall|i: int|
        0 <= i < text.len() ==> (#[trigger] hex_digit(text[i])) is Some {
        Some(
            Seq::new(
                text.len() / 2,
                |i: int| (16 * hex_digit(text[2 * i])->0 + hex_digit(text[2 * i + 1])->0) as u8,
            ),
        )
    } else {
        None
    }
}

/// `hex::decode`.
///
/// The claim: digits of either case are accepted, two to the byte; anything
/// else and an odd length are refused.
#[verifier::external_body]
fn hex_decode(text: &[u8]) -> (r: Result<Vec<u8>, hex::FromHexError>)
    ensures
        match r {
            Ok(bytes) => spec_hex_decode(text@) == Some(bytes@),
            Err(_) => spec_hex_decode(text@) is None,
        },
{
    hex::decode(text)
}

/// The bytes that a hexadecimal text stands for.
pub open spec fn spec_parse_hex(text: Seq<char>) -> Result<Seq<u8>, DecodeError> {
    match spec_hex_decode(encode_utf8(text)) {
        Some(bytes) => Ok(bytes),
        None => Err(DecodeError::InvalidHex),
    }
}

/// Reads bytes written as hexadecimal text, two digits of either case to the
/// byte. Fails where the text has an odd length or holds anything but digits.
pub fn parse_hex(text: &str) -> (r: Result<Vec<u8>, DecodeError>)
    ensures
        match r {
            Ok(bytes) => spec_parse_hex(text@) == Ok::<Seq<u8>, DecodeError>(bytes@),
            Err(e) => spec_parse_hex(text@) == Err::<Seq<u8>, DecodeError>(e),
        },
{
    match hex_decode(text.as_bytes()) {
        Ok(bytes) => Ok(bytes),
        Err(_) => Err(DecodeError::InvalidHex),
    }
}

} // verus!
