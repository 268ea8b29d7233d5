//! Hexadecimal text: what it decodes to and how bytes are written in it.
//!
//! Decoding and encoding are done by the `hex` crate. This module states what
//! the crate's two functions return and proves a few facts from that.

use vstd::prelude::*;

verus! {

/// Why a text is not the hexadecimal form of some bytes.
#[derive(Debug, Clone, Copy, PartialEq, Eq)]
pub enum DecodeError {
    /// The byte at `index` is no hexadecimal digit; `c` is the character
    /// with that byte's number.
    InvalidHexCharacter { c: char, index: usize },
    /// The number of digits is odd.
    OddLength,
    /// The text does not have the length of the container it is decoded
    /// into. Decoding into a vector never fails like this.
    InvalidStringLength,
}

/// Value of an ASCII hexadecimal digit, in either case.
pub open spec fn hex_digit_value(b: u8) -> Option<u8> {
    if 0x30 <= b <= 0x39 {
        Some((b - 0x30) as u8)
    } else if 0x61 <= b <= 0x66 {
        Some((b - 0x61 + 10) as u8)
    } else if 0x41 <= b <= 0x46 {
        Some((b - 0x41 + 10) as u8)
    } else {
        None
    }
}

/// Whether the byte is an ASCII hexadecimal digit.
pub open spec fn is_hex_digit(b: u8) -> bool {
    hex_digit_value(b) is Some
}

/// Whether every byte of the text is a hexadecimal digit.
pub open spec fn all_hex_digits(text: Seq<u8>) -> bool {
    forall|i: int| 0 <= i < text.len() ==> is_hex_digit(#[trigger] text[i])
}

/// Index of the first byte that is no hexadecimal digit, or the length of
/// the text where every byte is one.
pub open spec fn first_bad_digit(text: Seq<u8>) -> int
    decreases text.len(),
{
    if text.len() == 0 || !is_hex_digit(text[0]) {
        0
    } else {
        1 + first_bad_digit(text.drop_first())
    }
}

/// The byte that the digits at `2 * i` and `2 * i + 1` stand for.
pub open spec fn byte_of_digits(text: Seq<u8>, i: int) -> u8 {
    (16 * hex_digit_value(text[2 * i]).unwrap() + hex_digit_value(text[2 * i + 1]).unwrap()) as u8
}

/// The bytes that a text of hexadecimal digits stands for, two digits to a
/// byte, the high digit first.
pub open spec fn bytes_of_digits(text: Seq<u8>) -> Seq<u8> {
    Seq::new(text.len() / 2, |i: int| byte_of_digits(text, i))
}

/// What decoding a text gives: the bytes, or the first thing wrong with it.
/// An odd length is found before a bad digit.
pub open spec fn spec_hex_decode(text: Seq<u8>) -> Result<Seq<u8>, DecodeError> {
    let bad = first_bad_digit(text);
    if text.len() % 2 != 0 {
        Err(DecodeError::OddLength)
    } else if bad < text.len() {
        Err(DecodeError::InvalidHexCharacter { c: text[bad] as char, index: bad as usize })
    } else {
        Ok(bytes_of_digits(text))
    }
}

/// The lower-case hexadecimal digit for a number below 16.
pub open spec fn lower_hex_digit(nibble: int) -> char {
    if nibble < 10 {
        ((0x30 + nibble) as u8) as char
    } else {
        ((0x61 + nibble - 10) as u8) as char
    }
}

/// The character at position `k` of the hexadecimal form of `bytes`.
pub open spec fn hex_char_at(bytes: Seq<u8>, k: int) -> char {
    if k % 2 == 0 {
        lower_hex_digit(bytes[k / 2] as int / 16)
    } else {
        lower_hex_digit(bytes[k / 2] as int % 16)
    }
}

/// The hexadecimal form of bytes: two lower-case digits to a byte, the high
/// digit first.
pub open spec fn spec_hex_encode(bytes: Seq<u8>) -> Seq<char> {
    Seq::new(2 * bytes.len(), |k: int| hex_char_at(bytes, k))
}

/// `first_bad_digit` is the one index before which all bytes are digits and
/// at which the text ends or holds something else.
pub proof fn lemma_first_bad_digit(text: Seq<u8>, i: int)
    requires
        0 <= i <= text.len(),
        forall|j: int| 0 <= j < i ==> is_hex_digit(#[trigger] text[j]),
        i < text.len() ==> !is_hex_digit(text[i]),
    ensures
        first_bad_digit(text) == i,
    decreases text.len(),
{
    if i > 0 {
        assert(is_hex_digit(text[0]));
        let rest = text.drop_first();
        assert forall|j: int| 0 <= j < i - 1 implies is_hex_digit(#[trigger] rest[j]) by {
            assert(rest[j] == text[j + 1]);
        }
        lemma_first_bad_digit(rest, i - 1);
    }
}

/// `first_bad_digit` lies within the text or at its end, every byte before
/// it is a digit, and the byte at it is none.
pub proof fn lemma_first_bad_digit_is_first(text: Seq<u8>)
    ensures
        0 <= first_bad_digit(text) <= text.len(),
        forall|j: int| 0 <= j < first_bad_digit(text) ==> is_hex_digit(#[trigger] text[j]),
        first_bad_digit(text) < text.len() ==> !is_hex_digit(text[first_bad_digit(text)]),
    decreases text.len(),
{
    if text.len() != 0 && is_hex_digit(text[0]) {
        let rest = text.drop_first();
        lemma_first_bad_digit_is_first(rest);
        assert forall|j: int| 0 <= j < first_bad_digit(text) implies is_hex_digit(
            #[trigger] text[j],
        ) by {
            if j > 0 {
                assert(text[j] == rest[j - 1]);
            }
        }
    }
}

/// Calls `hex::decode`. The crate first refuses a text of odd length. Then it
/// reads the text two bytes at a time and stops at the first byte that is
/// not one of `0-9`, `a-f`, `A-F`, reporting that byte as a character
/// together with its index. Otherwise each pair of digits gives one byte,
/// the first digit being the high half.
#[verifier::external_body]
fn hex_decode(text: &[u8]) -> (decoded: Result<Vec<u8>, DecodeError>)
    ensures
        match decoded {
            Ok(bytes) => {
                &&& text@.len() % 2 == 0
                &&& all_hex_digits(text@)
                &&& bytes@ == bytes_of_digits(text@)
            },
            Err(DecodeError::OddLength) => text@.len() % 2 == 1,
            Err(DecodeError::InvalidHexCharacter { c, index }) => {
                &&& text@.len() % 2 == 0
                &&& index < text@.len()
                &&& !is_hex_digit(text@[index as int])
                &&& c == text@[index as int] as char
                &&& forall|j: int| 0 <= j < index ==> is_hex_digit(#[trigger] text@[j])
            },
            Err(DecodeError::InvalidStringLength) => false,
        },
{
    match hex::decode(text) {
        Ok(bytes) => Ok(bytes),
        Err(hex::FromHexError::InvalidHexCharacter { c, index }) => Err(
            DecodeError::InvalidHexCharacter { c, index },
        ),
        Err(hex::FromHexError::OddLength) => Err(DecodeError::OddLength),
        Err(hex::FromHexError::InvalidStringLength) => Err(DecodeError::InvalidStringLength),
    }
}

/// Calls `hex::encode`, which writes each byte as two lower-case
/// hexadecimal digits, the high half first.
#[verifier::external_body]
pub(crate) fn hex_encode(bytes: &[u8]) -> (text: String)
    ensures
        text@ == spec_hex_encode(bytes@),
{
    hex::encode(bytes)
}

/// Decodes hexadecimal text into bytes.
pub fn decode(text: &[u8]) -> (decoded: Result<Vec<u8>, DecodeError>)
    ensures
        match decoded {
            Ok(bytes) => spec_hex_decode(text@) == Ok::<Seq<u8>, DecodeError>(bytes@),
            Err(e) => spec_hex_decode(text@) == Err::<Seq<u8>, DecodeError>(e),
        },
{
    let decoded = hex_decode(text);
    proof {
        if decoded is Ok {
            lemma_first_bad_digit(text@, text@.len() as int);
        } else if let Err(DecodeError::InvalidHexCharacter { c, index }) = decoded {
            lemma_first_bad_digit(text@, index as int);
        }
    }
    decoded
}

} // verus!
