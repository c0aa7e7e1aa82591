//! A codec between TIS-620, the single-byte Thai encoding, and Unicode text.
//!
//! ASCII bytes stand for themselves; the bytes 0xA1 to 0xDA and 0xDF to 0xFB
//! stand for the Thai characters of the table in [`chars`]; every other byte
//! means nothing. Decoding and encoding are strict and stop at the first unit
//! that has no counterpart; lossy encoding asks a policy what to write for a
//! character that TIS-620 lacks, and never fails.
//!
//! The mapping is stated in [`mapping`], what each function may return in
//! [`outcome`], and what holds between the functions in [`laws`].

pub mod chars;
pub mod laws;
pub mod mapping;
pub mod message;
pub mod outcome;
pub mod text;

pub use crate::chars::ReplacementChar;

use crate::chars::ThaiChar;
use crate::laws::lemma_lossy_of_encodable;
use crate::mapping::{
    byte_of_char, char_of_byte, decodable, decoded, encodable, encoded, first_undecodable,
    first_unencodable, is_ascii_byte,
};
use crate::outcome::{
    decode_buf_outcome, decode_outcome, encode_buf_outcome, encode_outcome, encoded_lossy,
    lossy_buf_outcome, lossy_unit, policy_allows,
};
use vstd::prelude::*;

verus! {

/// A byte that means nothing in TIS-620, as met while decoding.
#[derive(Debug)]
pub struct DecodeError(pub u8);

/// A character that TIS-620 cannot write, as met while encoding.
#[derive(Debug)]
pub struct EncodeError(pub char);

/// Whether a byte is ASCII.
pub fn is_ascii(byte: u8) -> (ascii: bool)
    ensures
        ascii == is_ascii_byte(byte),
{
    byte <= 0x7F
}

/// The character that one byte stands for: itself for an ASCII byte, the
/// table's character for a Thai byte, nothing for any other byte.
pub fn decode_byte(byte: u8) -> (found: Option<char>)
    ensures
        found == char_of_byte(byte),
        found matches Some(ch) ==> byte_of_char(ch) == Some(byte),
{
    if is_ascii(byte) {
        Some(byte as char)
    } else {
        ThaiChar::byte_to_char(byte)
    }
}

/// The byte that stands for one character: itself for an ASCII character,
/// the table's byte for a Thai character, nothing for any other character.
pub fn encode_char(ch: char) -> (found: Option<u8>)
    ensures
        found == byte_of_char(ch),
        found matches Some(byte) ==> char_of_byte(byte) == Some(ch),
{
    if ch as u32 <= 0x7F {
        Some(ch as u32 as u8)
    } else {
        match ThaiChar::from_char(ch) {
            Some(tc) => {
                proof {
                    tc.lemma_in_range();
                }
                Some(tc.to_tis620_byte())
            },
            None => None,
        }
    }
}

/// Decodes TIS-620 bytes into a new string. Fails on the first byte that
/// means nothing in TIS-620.
pub fn decode(input: &[u8]) -> (result: Result<String, DecodeError>)
    ensures
        decode_outcome(input@, result),
        result is Ok <==> decodable(input@),
{
    let mut buffer = String::new();
    match decode_buf(input, &mut buffer) {
        Ok(_) => Ok(buffer),
        Err(e) => Err(e),
    }
}

/// Decodes TIS-620 bytes onto the end of `buffer`. Fails on the first byte
/// that means nothing in TIS-620; the text before that byte has then been added.
pub fn decode_buf(input: &[u8], buffer: &mut String) -> (result: Result<(), DecodeError>)
    ensures
        decode_buf_outcome(input@, old(buffer)@, final(buffer)@, result),
        result is Ok <==> decodable(input@),
{
    let mut i: usize = 0;
    while i < input.len()
        invariant
            0 <= i <= input.len(),
            decodable(input@.take(i as int)),
            buffer@ == old(buffer)@ + decoded(input@.take(i as int)),
        decreases input.len() - i,
    {
        let byte = input[i];
        let ch = match decode_byte(byte) {
            Some(ch) => ch,
            None => {
                assert(first_undecodable(input@, i as int));
                return Err(DecodeError(byte));
            },
        };
        buffer.push(ch);
        proof {
            let done = input@.take(i as int);
            let more = input@.take(i + 1);
            assert(decoded(more) =~= decoded(done).push(ch));
        }
        i += 1;
    }
    assert(input@.take(i as int) =~= input@);
    Ok(())
}

/// Encodes text as TIS-620 into a new vector. Fails on the first character
/// that TIS-620 cannot write.
pub fn encode(input: &str) -> (result: Result<Vec<u8>, EncodeError>)
    ensures
        encode_outcome(input@, result),
        result is Ok <==> encodable(input@),
{
    let mut buffer = Vec::with_capacity(input.len());
    match encode_buf(input, &mut buffer) {
        Ok(_) => Ok(buffer),
        Err(e) => Err(e),
    }
}

/// Encodes text as TIS-620 onto the end of `buffer`. Fails on the first
/// character that TIS-620 cannot write; the bytes before that character have
/// then been added.
pub fn encode_buf(input: &str, buffer: &mut Vec<u8>) -> (result: Result<(), EncodeError>)
    ensures
        encode_buf_outcome(input@, old(buffer)@, final(buffer)@, result),
        result is Ok <==> encodable(input@),
{
    for ch in it: input.chars()
        invariant
            it.seq() == input@,
            encodable(input@.take(it.index() as int)),
            buffer@ == old(buffer)@ + encoded(input@.take(it.index() as int)),
    {
        let ghost done = input@.take(it.index() as int);
        let ghost more = input@.take(it.index() + 1);
        let byte = match encode_char(ch) {
            Some(byte) => byte,
            None => {
                assert(first_unencodable(input@, it.index() as int));
                return Err(EncodeError(ch));
            },
        };
        buffer.push(byte);
        proof {
            assert(encoded(more) =~= encoded(done).push(byte));
        }
    }
    assert(input@.take(input@.len() as int) =~= input@);
    Ok(())
}

/// Encodes text as TIS-620 into a new vector, and never fails. For a
/// character that TIS-620 cannot write, `f` is asked: the replacement it
/// answers is written, or nothing where it answers `None`. `f` must accept
/// every such character of the input. What comes back always decodes.
pub fn encode_lossy<F>(input: &str, f: F) -> (bytes: Vec<u8>) where
    F: FnMut(char) -> Option<ReplacementChar>,

    requires
        forall|i: int|
            0 <= i < input@.len() && byte_of_char(#[trigger] input@[i]) is None ==> call_requires(
                f,
                (input@[i],),
            ),
    ensures
        lossy_buf_outcome(f, input@, Seq::empty(), bytes@),
        encodable(input@) ==> bytes@ == encoded(input@),
        decodable(bytes@),
{
    let mut buffer = Vec::with_capacity(input.len());
    encode_lossy_buf(input, f, &mut buffer);
    assert(buffer@.skip(0) =~= buffer@);
    buffer
}

/// Encodes text as TIS-620 onto the end of `buffer`, and never fails. For a
/// character that TIS-620 cannot write, `f` is asked: the replacement it
/// answers is written, or nothing where it answers `None`. `f` must accept
/// every such character of the input. What is added always decodes.
pub fn encode_lossy_buf<F>(input: &str, mut f: F, buffer: &mut Vec<u8>) where
    F: FnMut(char) -> Option<ReplacementChar>,

    requires
        forall|i: int|
            0 <= i < input@.len() && byte_of_char(#[trigger] input@[i]) is None ==> call_requires(
                f,
                (input@[i],),
            ),
    ensures
        lossy_buf_outcome(f, input@, old(buffer)@, final(buffer)@),
        encodable(input@) ==> final(buffer)@ == old(buffer)@ + encoded(input@),
        final(buffer)@.len() >= old(buffer)@.len(),
        decodable(final(buffer)@.skip(old(buffer)@.len() as int)),
{
    let ghost policy = f;
    let ghost mut choices: Seq<Option<ReplacementChar>> = Seq::empty();
    for ch in it: input.chars()
        invariant
            it.seq() == input@,
            f == policy,
            forall|i: int|
                0 <= i < input@.len() && byte_of_char(#[trigger] input@[i]) is None
                    ==> call_requires(f, (input@[i],)),
            policy_allows(policy, input@.take(it.index() as int), choices),
            buffer@ == old(buffer)@ + encoded_lossy(input@.take(it.index() as int), choices),
            decodable(encoded_lossy(input@.take(it.index() as int), choices)),
    {
        let ghost done = input@.take(it.index() as int);
        let ghost more = input@.take(it.index() + 1);
        let ghost written = encoded_lossy(done, choices);
        let ghost earlier = choices;
        assert(more.drop_last() =~= done);
        match encode_char(ch) {
            Some(byte) => {
                buffer.push(byte);
                proof {
                    choices = earlier.push(None);
                }
            },
            None => {
                let answer = f(ch);
                proof {
                    choices = earlier.push(answer);
                }
                if let Some(replacement) = answer {
                    buffer.push(replacement.to_tis620_byte());
                }
            },
        }
        proof {
            assert(choices.drop_last() =~= earlier);
            let unit = lossy_unit(ch, choices.last());
            assert(encoded_lossy(more, choices) == written + unit);
            assert(buffer@ =~= old(buffer)@ + (written + unit));
            assert forall|i: int| 0 <= i < (written + unit).len() implies char_of_byte(
                #[trigger] (written + unit)[i],
            ) is Some by {
                if i < written.len() {
                    assert((written + unit)[i] == written[i]);
                } else {
                    assert((written + unit)[i] == unit[0]);
                }
            }
        }
    }
    proof {
        assert(input@.take(input@.len() as int) =~= input@);
        let written = encoded_lossy(input@, choices);
        assert(buffer@.skip(old(buffer)@.len() as int) =~= written);
        if encodable(input@) {
            lemma_lossy_of_encodable(input@, choices);
        }
    }
}

} // verus!
