//! Hexadecimal decoding and URI checking, done by the `hex` and `hyper`
//! crates.

use std::str::FromStr;
use vstd::prelude::*;

verus! {

/// Why a hexadecimal string could not be decoded.
#[derive(Debug, Clone, Copy, PartialEq, Eq, Structural)]
pub enum HexError {
    /// A character that is not a hexadecimal digit, with its byte position.
    InvalidHexCharacter { c: char, index: usize },
    /// An odd number of digits.
    OddLength,
    /// A length that does not fit a fixed-size target.
    InvalidStringLength,
}

/// Whether byte `b` is an ASCII hexadecimal digit of either case.
pub open spec fn is_hex_digit(b: u8) -> bool {
    ||| 48 <= b <= 57
    ||| 97 <= b <= 102
    ||| 65 <= b <= 70
}

/// The value of the hexadecimal digit `b`.
pub open spec fn hex_value(b: u8) -> int {
    if 48 <= b <= 57 {
        b - 48
    } else if 97 <= b <= 102 {
        b - 87
    } else {
        b - 55
    }
}

/// Whether `s` is an even number of hexadecimal digits.
pub open spec fn is_hex_text(s: Seq<u8>) -> bool {
    &&& s.len() % 2 == 0
    &&& forall|i: int| 0 <= i < s.len() ==> is_hex_digit(#[trigger] s[i])
}

/// The bytes that the digit pairs of `s` stand for, high digit first.
pub open spec fn hex_bytes(s: Seq<u8>) -> Seq<u8> {
    Seq::new(s.len() / 2, |i: int| (hex_value(s[2 * i]) * 16 + hex_value(s[2 * i + 1])) as u8)
}

/// What `hex::decode` answers on `s`: the decoded bytes, the odd-length
/// error, or the first byte that is not a digit.
pub open spec fn hex_decode_result(s: Seq<u8>, r: Result<Seq<u8>, HexError>) -> bool {
    match r {
        Ok(v) => is_hex_text(s) && v == hex_bytes(s),
        Err(HexError::OddLength) => s.len() % 2 == 1,
        Err(HexError::InvalidHexCharacter { c, index }) => {
            &&& s.len() % 2 == 0
            &&& index < s.len()
            &&& !is_hex_digit(s[index as int])
            &&& c == (s[index as int] as char)
            &&& forall|j: int| 0 <= j < index ==> is_hex_digit(#[trigger] s[j])
        },
        Err(HexError::InvalidStringLength) => false,
    }
}

/// Trusted: `hex::decode`, which rejects an odd length, then rejects the
/// first byte that is not a hexadecimal digit, and otherwise turns each
/// pair of digits into one byte.
#[verifier::external_body]
pub(crate) fn hex_decode(s: &[u8]) -> (r: Result<Vec<u8>, HexError>)
    ensures
        hex_decode_result(
            s@,
            match r {
                Ok(v) => Ok(v@),
                Err(e) => Err(e),
            },
        ),
{
    match hex::decode(s) {
        Ok(v) => Ok(v),
        Err(hex::FromHexError::InvalidHexCharacter { c, index }) => Err(
            HexError::InvalidHexCharacter { c, index },
        ),
        Err(hex::FromHexError::OddLength) => Err(HexError::OddLength),
        Err(hex::FromHexError::InvalidStringLength) => Err(HexError::InvalidStringLength),
    }
}

/// What parsing `s` as a URI with `hyper::Uri::from_str` reports: `None`
/// when `s` is a URI, else the text of the parse error.
pub uninterp spec fn uri_parse_error(s: Seq<char>) -> Option<Seq<char>>;

/// Trusted: `hyper::Uri::from_str`, reduced to the text of its error.
#[verifier::external_body]
pub(crate) fn uri_error(s: &str) -> (r: Option<String>)
    ensures
        match r {
            Some(m) => uri_parse_error(s@) == Some(m@),
            None => uri_parse_error(s@) is None,
        },
{
    match hyper::Uri::from_str(s) {
        Ok(_) => None,
        Err(e) => Some(e.to_string()),
    }
}

} // verus!
