//! What each function of the codec may leave behind, as predicates over the
//! input, the buffer before and after, and the result.

use crate::chars::ReplacementChar;
use crate::mapping::{
    byte_of_char, decodable, decoded, encodable, encoded, first_undecodable, first_unencodable,
};
use crate::{DecodeError, EncodeError};
use vstd::prelude::*;

verus! {

/// What decoding `bytes` onto a buffer that held `before` may leave: on
/// success all of the decoded text is added; on failure the error carries the
/// first byte that does not decode, and what came before it was added.
pub open spec fn decode_buf_outcome(
    bytes: Seq<u8>,
    before: Seq<char>,
    after: Seq<char>,
    result: Result<(), DecodeError>,
) -> bool {
    match result {
        Ok(_) => decodable(bytes) && after == before + decoded(bytes),
        Err(e) => exists|at: int|
            #[trigger] first_undecodable(bytes, at) && e.0 == bytes[at] && after == before
                + decoded(bytes.take(at)),
    }
}

/// What decoding `bytes` may return: the decoded text where every byte
/// decodes, else the first byte that does not.
pub open spec fn decode_outcome(bytes: Seq<u8>, result: Result<String, DecodeError>) -> bool {
    match result {
        Ok(text) => decodable(bytes) && text@ == decoded(bytes),
        Err(e) => exists|at: int| #[trigger] first_undecodable(bytes, at) && e.0 == bytes[at],
    }
}

/// What encoding `text` onto a buffer that held `before` may leave: on
/// success all of the encoded bytes are added; on failure the error carries
/// the first character that does not encode, and what came before it was added.
pub open spec fn encode_buf_outcome(
    text: Seq<char>,
    before: Seq<u8>,
    after: Seq<u8>,
    result: Result<(), EncodeError>,
) -> bool {
    match result {
        Ok(_) => encodable(text) && after == before + encoded(text),
        Err(e) => exists|at: int|
            #[trigger] first_unencodable(text, at) && e.0 == text[at] && after == before + encoded(
                text.take(at),
            ),
    }
}

/// What encoding `text` may return: the encoded bytes where every character
/// encodes, else the first character that does not.
pub open spec fn encode_outcome(text: Seq<char>, result: Result<Vec<u8>, EncodeError>) -> bool {
    match result {
        Ok(bytes) => encodable(text) && bytes@ == encoded(text),
        Err(e) => exists|at: int| #[trigger] first_unencodable(text, at) && e.0 == text[at],
    }
}

/// What lossy encoding writes for one character: its byte where it has one,
/// else the byte of the replacement chosen for it, else nothing.
pub open spec fn lossy_unit(c: char, choice: Option<ReplacementChar>) -> Seq<u8> {
    match byte_of_char(c) {
        Some(b) => seq![b],
        None => match choice {
            Some(replacement) => seq![replacement.byte()],
            None => Seq::empty(),
        },
    }
}

/// What lossy encoding writes for `text` when `choices` holds, place by place,
/// what the policy answered. The two are of one length; a choice at the place
/// of a character that encodes is not looked at.
pub open spec fn encoded_lossy(text: Seq<char>, choices: Seq<Option<ReplacementChar>>) -> Seq<u8>
    decreases text.len(),
{
    if text.len() == 0 || choices.len() != text.len() {
        Seq::empty()
    } else {
        encoded_lossy(text.drop_last(), choices.drop_last()) + lossy_unit(
            text.last(),
            choices.last(),
        )
    }
}

/// `choices` holds, at the place of each character of `text` that does not
/// encode, an answer that `policy` may give for that character.
pub open spec fn policy_allows<F: FnMut(char) -> Option<ReplacementChar>>(
    policy: F,
    text: Seq<char>,
    choices: Seq<Option<ReplacementChar>>,
) -> bool {
    &&& choices.len() == text.len()
    &&& forall|i: int|
        0 <= i < text.len() && byte_of_char(text[i]) is None ==> call_ensures(
            policy,
            (text[i],),
            #[trigger] choices[i],
        )
}

/// What lossy encoding of `text` onto a buffer that held `before` may leave:
/// the bytes written for `text` under some answers of `policy` are added.
pub open spec fn lossy_buf_outcome<F: FnMut(char) -> Option<ReplacementChar>>(
    policy: F,
    text: Seq<char>,
    before: Seq<u8>,
    after: Seq<u8>,
) -> bool {
    exists|choices: Seq<Option<ReplacementChar>>|
        policy_allows(policy, text, choices) && after == before + #[trigger] encoded_lossy(
            text,
            choices,
        )
}

} // verus!
