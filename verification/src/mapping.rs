//! The mapping between bytes and characters, stated once. A Thai byte and
//! its character are a fixed distance apart, so the whole table is two ranges
//! and an offset; on sequences, text and bytes correspond unit by unit.

use vstd::prelude::*;

verus! {

/// The distance from a Thai byte of TIS-620 to the code point it stands for:
/// byte 0xA1 is U+0E01, and the table keeps that distance throughout.
pub const THAI_OFFSET: u32 = 0x0D60;

/// Bytes 0x00 to 0x7F are ASCII and stand for themselves.
pub open spec fn is_ascii_byte(b: u8) -> bool {
    b <= 0x7F
}

/// The bytes that the table maps: 0xA1 to 0xDA and 0xDF to 0xFB.
pub open spec fn is_thai_byte(b: u8) -> bool {
    0xA1 <= b <= 0xDA || 0xDF <= b <= 0xFB
}

/// The bytes that mean something in TIS-620.
pub open spec fn is_valid_byte(b: u8) -> bool {
    is_ascii_byte(b) || is_thai_byte(b)
}

/// The bytes that mean nothing in TIS-620: 0x80 to 0xA0, 0xDB to 0xDE, 0xFC to 0xFF.
pub open spec fn is_gap_byte(b: u8) -> bool {
    0x80 <= b <= 0xA0 || 0xDB <= b <= 0xDE || 0xFC <= b
}

/// Characters U+0000 to U+007F are ASCII.
pub open spec fn is_ascii_char(c: char) -> bool {
    c as u32 <= 0x7F
}

/// The characters that the table maps: U+0E01 to U+0E3A and U+0E3F to U+0E5B.
pub open spec fn is_thai_char(c: char) -> bool {
    0x0E01 <= c as u32 <= 0x0E3A || 0x0E3F <= c as u32 <= 0x0E5B
}

/// The characters that TIS-620 can write.
pub open spec fn is_valid_char(c: char) -> bool {
    is_ascii_char(c) || is_thai_char(c)
}

/// The character of a Thai byte.
pub open spec fn thai_char_of(b: u8) -> char
    recommends
        is_thai_byte(b),
{
    (b as u32 + THAI_OFFSET) as char
}

/// The byte of a Thai character.
pub open spec fn thai_byte_of(c: char) -> u8
    recommends
        is_thai_char(c),
{
    (c as u32 - THAI_OFFSET) as u8
}

/// What one byte decodes to, if anything.
pub open spec fn char_of_byte(b: u8) -> Option<char> {
    if is_ascii_byte(b) {
        Some(b as char)
    } else if is_thai_byte(b) {
        Some(thai_char_of(b))
    } else {
        None
    }
}

/// What one character encodes to, if anything.
pub open spec fn byte_of_char(c: char) -> Option<u8> {
    if is_ascii_char(c) {
        Some(c as u8)
    } else if is_thai_char(c) {
        Some(thai_byte_of(c))
    } else {
        None
    }
}

/// Every byte of `bytes` decodes.
pub open spec fn decodable(bytes: Seq<u8>) -> bool {
    forall|i: int| 0 <= i < bytes.len() ==> char_of_byte(#[trigger] bytes[i]) is Some
}

/// The text that `bytes` stands for, byte by byte. It means something where
/// `bytes` is decodable.
pub open spec fn decoded(bytes: Seq<u8>) -> Seq<char> {
    Seq::new(bytes.len(), |i: int| char_of_byte(bytes[i]).unwrap())
}

/// `at` is the place of the first byte of `bytes` that does not decode.
pub open spec fn first_undecodable(bytes: Seq<u8>, at: int) -> bool {
    &&& 0 <= at < bytes.len()
    &&& char_of_byte(bytes[at]) is None
    &&& decodable(bytes.take(at))
}

/// Every character of `text` encodes.
pub open spec fn encodable(text: Seq<char>) -> bool {
    forall|i: int| 0 <= i < text.len() ==> byte_of_char(#[trigger] text[i]) is Some
}

/// The bytes that stand for `text`, character by character. It means
/// something where `text` is encodable.
pub open spec fn encoded(text: Seq<char>) -> Seq<u8> {
    Seq::new(text.len(), |i: int| byte_of_char(text[i]).unwrap())
}

/// `at` is the place of the first character of `text` that does not encode.
pub open spec fn first_unencodable(text: Seq<char>, at: int) -> bool {
    &&& 0 <= at < text.len()
    &&& byte_of_char(text[at]) is None
    &&& encodable(text.take(at))
}

} // verus!
