//! What holds between the functions of the codec: round trips, the table
//! being one-to-one, the gaps, and the agreement of the variants.

use crate::chars::ReplacementChar;
use crate::mapping::{
    byte_of_char, char_of_byte, decodable, decoded, encodable, encoded, first_undecodable,
    first_unencodable, is_gap_byte, is_thai_byte, is_thai_char, is_valid_byte, is_valid_char,
};
use crate::outcome::{
    decode_buf_outcome, decode_outcome, encode_buf_outcome, encode_outcome, encoded_lossy,
    lossy_buf_outcome, policy_allows,
};
use crate::{DecodeError, EncodeError};
use vstd::prelude::*;

verus! {

/// Every byte is either a gap or valid, never both.
pub proof fn lemma_gap_or_valid(byte: u8)
    ensures
        is_gap_byte(byte) != is_valid_byte(byte),
        is_valid_byte(byte) == char_of_byte(byte).is_some(),
{
}

/// A valid byte decodes to a valid character, which encodes to that byte.
pub proof fn lemma_byte_round_trip(byte: u8)
    requires
        is_valid_byte(byte),
    ensures
        char_of_byte(byte) matches Some(ch) && is_valid_char(ch) && byte_of_char(ch) == Some(byte),
{
}

/// A valid character encodes to a valid byte, which decodes to that character.
pub proof fn lemma_char_round_trip(ch: char)
    requires
        is_valid_char(ch),
    ensures
        byte_of_char(ch) matches Some(byte) && is_valid_byte(byte) && char_of_byte(byte) == Some(
            ch,
        ),
{
}

/// Two different bytes of the table stand for two different characters.
pub proof fn lemma_table_bytes_distinct(a: u8, b: u8)
    requires
        is_thai_byte(a),
        is_thai_byte(b),
        a != b,
    ensures
        char_of_byte(a) is Some,
        char_of_byte(b) is Some,
        char_of_byte(a) != char_of_byte(b),
{
}

/// Two different characters of the table have two different bytes.
pub proof fn lemma_table_chars_distinct(a: char, b: char)
    requires
        is_thai_char(a),
        is_thai_char(b),
        a != b,
    ensures
        byte_of_char(a) is Some,
        byte_of_char(b) is Some,
        byte_of_char(a) != byte_of_char(b),
{
}

/// Text that was decoded encodes, and to the bytes it came from.
pub proof fn lemma_decoded_encodes(bytes: Seq<u8>)
    requires
        decodable(bytes),
    ensures
        encodable(decoded(bytes)),
        encoded(decoded(bytes)) == bytes,
{
    assert forall|i: int| 0 <= i < bytes.len() implies byte_of_char(#[trigger] decoded(bytes)[i])
        == Some(bytes[i]) by {
        assert(char_of_byte(bytes[i]) is Some);
        lemma_gap_or_valid(bytes[i]);
        lemma_byte_round_trip(bytes[i]);
    }
    assert(encoded(decoded(bytes)) =~= bytes);
}

/// Bytes that were encoded decode, and to the text they came from.
pub proof fn lemma_encoded_decodes(text: Seq<char>)
    requires
        encodable(text),
    ensures
        decodable(encoded(text)),
        decoded(encoded(text)) == text,
{
    assert forall|i: int| 0 <= i < text.len() implies char_of_byte(#[trigger] encoded(text)[i])
        == Some(text[i]) by {
        assert(byte_of_char(text[i]) is Some);
        lemma_char_round_trip(text[i]);
    }
    assert(decoded(encoded(text)) =~= text);
}

/// At most one place is that of the first byte that does not decode.
pub proof fn lemma_first_undecodable_unique(bytes: Seq<u8>, a: int, b: int)
    requires
        first_undecodable(bytes, a),
        first_undecodable(bytes, b),
    ensures
        a == b,
{
    if a < b {
        assert(bytes.take(b)[a] == bytes[a]);
    }
    if b < a {
        assert(bytes.take(a)[b] == bytes[b]);
    }
}

/// At most one place is that of the first character that does not encode.
pub proof fn lemma_first_unencodable_unique(text: Seq<char>, a: int, b: int)
    requires
        first_unencodable(text, a),
        first_unencodable(text, b),
    ensures
        a == b,
{
    if a < b {
        assert(text.take(b)[a] == text[a]);
    }
    if b < a {
        assert(text.take(a)[b] == text[b]);
    }
}

/// Where `at` is the place of the first byte that does not decode, decoding
/// fails with that byte.
pub proof fn lemma_decode_fails_at(bytes: Seq<u8>, at: int, result: Result<String, DecodeError>)
    requires
        first_undecodable(bytes, at),
        decode_outcome(bytes, result),
    ensures
        result matches Err(e) && e.0 == bytes[at],
{
    if let Err(e) = result {
        let other = choose|other: int| first_undecodable(bytes, other) && e.0 == bytes[other];
        lemma_first_undecodable_unique(bytes, at, other);
    }
}

/// Where `at` is the place of the first character that does not encode,
/// encoding fails with that character.
pub proof fn lemma_encode_fails_at(text: Seq<char>, at: int, result: Result<Vec<u8>, EncodeError>)
    requires
        first_unencodable(text, at),
        encode_outcome(text, result),
    ensures
        result matches Err(e) && e.0 == text[at],
{
    if let Err(e) = result {
        let other = choose|other: int| first_unencodable(text, other) && e.0 == text[other];
        lemma_first_unencodable_unique(text, at, other);
    }
}

/// Decoding one valid byte succeeds, and encoding what it gave returns that
/// byte alone.
pub proof fn lemma_decode_then_encode_byte(
    byte: u8,
    text: Result<String, DecodeError>,
    back: Result<Vec<u8>, EncodeError>,
)
    requires
        is_valid_byte(byte),
        decode_outcome(seq![byte], text),
        text matches Ok(t) ==> encode_outcome(t@, back),
    ensures
        text is Ok,
        back matches Ok(bytes) && bytes@ == seq![byte],
{
    lemma_gap_or_valid(byte);
    assert(decodable(seq![byte]));
    if let Err(e) = text {
        let at = choose|at: int| first_undecodable(seq![byte], at);
        assert(seq![byte][at] == byte);
    }
    lemma_decode_then_encode(seq![byte], text->Ok_0, back);
}

/// Encoding one valid character succeeds, and decoding what it gave returns
/// that character alone.
pub proof fn lemma_encode_then_decode_char(
    ch: char,
    bytes: Result<Vec<u8>, EncodeError>,
    back: Result<String, DecodeError>,
)
    requires
        is_valid_char(ch),
        encode_outcome(seq![ch], bytes),
        bytes matches Ok(b) ==> decode_outcome(b@, back),
    ensures
        bytes is Ok,
        back matches Ok(text) && text@ == seq![ch],
{
    lemma_char_round_trip(ch);
    assert(encodable(seq![ch]));
    if let Err(e) = bytes {
        let at = choose|at: int| first_unencodable(seq![ch], at);
        assert(seq![ch][at] == ch);
    }
    lemma_encode_then_decode(seq![ch], bytes->Ok_0, back);
}

/// Whatever decoding returned as text, encoding that text succeeds and
/// returns the bytes that were decoded.
pub proof fn lemma_decode_then_encode(
    bytes: Seq<u8>,
    text: String,
    back: Result<Vec<u8>, EncodeError>,
)
    requires
        decode_outcome(bytes, Ok(text)),
        encode_outcome(text@, back),
    ensures
        back matches Ok(out) && out@ == bytes,
{
    lemma_decoded_encodes(bytes);
    if let Err(e) = back {
        let at = choose|at: int| first_unencodable(text@, at);
        assert(byte_of_char(text@[at]) is Some);
    }
}

/// Whatever encoding returned as bytes, decoding those bytes succeeds and
/// returns the text that was encoded.
pub proof fn lemma_encode_then_decode(
    text: Seq<char>,
    bytes: Vec<u8>,
    back: Result<String, DecodeError>,
)
    requires
        encode_outcome(text, Ok(bytes)),
        decode_outcome(bytes@, back),
    ensures
        back matches Ok(out) && out@ == text,
{
    lemma_encoded_decodes(text);
    if let Err(e) = back {
        let at = choose|at: int| first_undecodable(bytes@, at);
        assert(char_of_byte(bytes@[at]) is Some);
    }
}

/// Decoding a single byte from one of the gaps fails, and the error carries
/// that byte.
pub proof fn lemma_gap_rejected(byte: u8, result: Result<String, DecodeError>)
    requires
        is_gap_byte(byte),
        decode_outcome(seq![byte], result),
    ensures
        result matches Err(e) && e.0 == byte,
{
    assert(seq![byte][0] == byte);
    if let Err(e) = result {
        let at = choose|at: int| first_undecodable(seq![byte], at);
        assert(seq![byte][at] == byte);
    }
}

/// Where bytes hold a gap byte anywhere, decoding them fails.
pub proof fn lemma_gap_fails(bytes: Seq<u8>, at: int, result: Result<String, DecodeError>)
    requires
        0 <= at < bytes.len(),
        is_gap_byte(bytes[at]),
        decode_outcome(bytes, result),
    ensures
        result matches Err(e) && is_gap_byte(e.0),
{
    if let Err(e) = result {
        let first = choose|first: int| first_undecodable(bytes, first);
        lemma_gap_or_valid(bytes[first]);
    }
}

/// Decoding onto a buffer and decoding into a new string agree: both succeed
/// or both fail with the same byte, and on success the buffer has gained the
/// text that the other returned.
pub proof fn lemma_decode_buf_agrees(
    bytes: Seq<u8>,
    before: Seq<char>,
    after: Seq<char>,
    buffered: Result<(), DecodeError>,
    allocated: Result<String, DecodeError>,
)
    requires
        decode_buf_outcome(bytes, before, after, buffered),
        decode_outcome(bytes, allocated),
    ensures
        match (buffered, allocated) {
            (Ok(_), Ok(text)) => after == before + text@,
            (Err(e), Err(f)) => e.0 == f.0,
            _ => false,
        },
{
    if let Err(e) = buffered {
        let a = choose|a: int| first_undecodable(bytes, a) && e.0 == bytes[a];
        if let Err(f) = allocated {
            let b = choose|b: int| first_undecodable(bytes, b) && f.0 == bytes[b];
            lemma_first_undecodable_unique(bytes, a, b);
        }
    } else if let Err(f) = allocated {
        let b = choose|b: int| first_undecodable(bytes, b) && f.0 == bytes[b];
    }
}

/// Encoding onto a buffer and encoding into a new vector agree: both succeed
/// or both fail with the same character, and on success the buffer has gained
/// the bytes that the other returned.
pub proof fn lemma_encode_buf_agrees(
    text: Seq<char>,
    before: Seq<u8>,
    after: Seq<u8>,
    buffered: Result<(), EncodeError>,
    allocated: Result<Vec<u8>, EncodeError>,
)
    requires
        encode_buf_outcome(text, before, after, buffered),
        encode_outcome(text, allocated),
    ensures
        match (buffered, allocated) {
            (Ok(_), Ok(bytes)) => after == before + bytes@,
            (Err(e), Err(f)) => e.0 == f.0,
            _ => false,
        },
{
    if let Err(e) = buffered {
        let a = choose|a: int| first_unencodable(text, a) && e.0 == text[a];
        if let Err(f) = allocated {
            let b = choose|b: int| first_unencodable(text, b) && f.0 == text[b];
            lemma_first_unencodable_unique(text, a, b);
        }
    } else if let Err(f) = allocated {
        let b = choose|b: int| first_unencodable(text, b) && f.0 == text[b];
    }
}

/// Where every character encodes, lossy encoding writes what strict encoding
/// writes, whatever the policy would answer.
pub proof fn lemma_lossy_of_encodable(text: Seq<char>, choices: Seq<Option<ReplacementChar>>)
    requires
        encodable(text),
        choices.len() == text.len(),
    ensures
        encoded_lossy(text, choices) == encoded(text),
    decreases text.len(),
{
    if text.len() > 0 {
        lemma_lossy_of_encodable(text.drop_last(), choices.drop_last());
        assert(byte_of_char(text[text.len() - 1]) is Some);
    }
    assert(encoded_lossy(text, choices) =~= encoded(text));
}

/// `policy` has one answer for each character.
pub open spec fn single_valued<F: FnMut(char) -> Option<ReplacementChar>>(policy: F) -> bool {
    forall|c: char, a: Option<ReplacementChar>, b: Option<ReplacementChar>|
        #![trigger call_ensures(policy, (c,), a), call_ensures(policy, (c,), b)]
        call_ensures(policy, (c,), a) && call_ensures(policy, (c,), b) ==> a == b
}

/// Two runs of answers that a single-valued policy may give for one text
/// write the same bytes.
pub proof fn lemma_lossy_single_valued<F: FnMut(char) -> Option<ReplacementChar>>(
    policy: F,
    text: Seq<char>,
    first: Seq<Option<ReplacementChar>>,
    second: Seq<Option<ReplacementChar>>,
)
    requires
        single_valued(policy),
        policy_allows(policy, text, first),
        policy_allows(policy, text, second),
    ensures
        encoded_lossy(text, first) == encoded_lossy(text, second),
    decreases text.len(),
{
    if text.len() > 0 {
        let last = text.len() - 1;
        let shorter = text.drop_last();
        assert forall|i: int|
            0 <= i < shorter.len() && byte_of_char(shorter[i]) is None implies call_ensures(
            policy,
            (shorter[i],),
            #[trigger] first.drop_last()[i],
        ) by {
            assert(shorter[i] == text[i]);
            assert(first.drop_last()[i] == first[i]);
        }
        assert forall|i: int|
            0 <= i < shorter.len() && byte_of_char(shorter[i]) is None implies call_ensures(
            policy,
            (shorter[i],),
            #[trigger] second.drop_last()[i],
        ) by {
            assert(shorter[i] == text[i]);
            assert(second.drop_last()[i] == second[i]);
        }
        lemma_lossy_single_valued(policy, shorter, first.drop_last(), second.drop_last());
        if byte_of_char(text[last]) is None {
            assert(call_ensures(policy, (text[last],), first[last]));
            assert(call_ensures(policy, (text[last],), second[last]));
        }
    }
}

/// Lossy encoding onto a buffer and into a new vector agree under a
/// single-valued policy: the buffer gains the bytes that the other returned.
pub proof fn lemma_lossy_buf_agrees<F: FnMut(char) -> Option<ReplacementChar>>(
    policy: F,
    text: Seq<char>,
    before: Seq<u8>,
    after: Seq<u8>,
    allocated: Seq<u8>,
)
    requires
        single_valued(policy),
        lossy_buf_outcome(policy, text, before, after),
        lossy_buf_outcome(policy, text, Seq::empty(), allocated),
    ensures
        after == before + allocated,
{
    let first = choose|choices: Seq<Option<ReplacementChar>>|
        policy_allows(policy, text, choices) && after == before + #[trigger] encoded_lossy(
            text,
            choices,
        );
    let second = choose|choices: Seq<Option<ReplacementChar>>|
        policy_allows(policy, text, choices) && allocated == Seq::<u8>::empty()
            + #[trigger] encoded_lossy(text, choices);
    lemma_lossy_single_valued(policy, text, first, second);
    assert(Seq::<u8>::empty() + encoded_lossy(text, second) =~= encoded_lossy(text, second));
}

/// Where every character of the text encodes, lossy encoding adds to the
/// buffer what strict encoding adds, whatever the policy.
pub proof fn lemma_lossy_agrees_with_strict<F: FnMut(char) -> Option<ReplacementChar>>(
    policy: F,
    text: Seq<char>,
    before: Seq<u8>,
    after: Seq<u8>,
    strict: Result<Vec<u8>, EncodeError>,
)
    requires
        encodable(text),
        lossy_buf_outcome(policy, text, before, after),
        encode_outcome(text, strict),
    ensures
        strict matches Ok(bytes) && after == before + bytes@,
{
    let choices = choose|choices: Seq<Option<ReplacementChar>>|
        policy_allows(policy, text, choices) && after == before + #[trigger] encoded_lossy(
            text,
            choices,
        );
    lemma_lossy_of_encodable(text, choices);
    if let Err(e) = strict {
        let at = choose|at: int| first_unencodable(text, at);
        assert(byte_of_char(text[at]) is Some);
    }
}

} // verus!
