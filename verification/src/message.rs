//! The errors as sentences.

use crate::text::{char_debug_text, debug_text};
use crate::{DecodeError, EncodeError};
use vstd::prelude::*;

verus! {

/// The upper-case hexadecimal digit for a number below sixteen.
pub open spec fn hex_digit(n: u8) -> char
    recommends
        n < 16,
{
    if n < 10 {
        (0x30 + n) as char
    } else {
        (0x41 + (n - 10)) as char
    }
}

/// A byte in upper-case hexadecimal, without leading zero.
pub open spec fn upper_hex(byte: u8) -> Seq<char> {
    if byte < 16 {
        seq![hex_digit(byte)]
    } else {
        seq![hex_digit(byte / 16), hex_digit(byte % 16)]
    }
}

/// The upper-case hexadecimal digit for a number below sixteen.
pub fn hex_digit_char(n: u8) -> (digit: char)
    requires
        n < 16,
    ensures
        digit == hex_digit(n),
{
    if n < 10 {
        (0x30 + n) as char
    } else {
        (0x41 + (n - 10)) as char
    }
}

/// The message for a character that does not encode, given that character
/// as `Debug` writes it.
pub fn invalid_character_message(quoted: String) -> (text: String)
    ensures
        text@ == quoted@ + " is invalid TIS-620 character."@,
{
    let mut text = quoted;
    text.append(" is invalid TIS-620 character.");
    text
}

impl DecodeError {
    /// The message: the byte in hexadecimal behind `0x`, and what is wrong
    /// with it.
    pub open spec fn message_text(self) -> Seq<char> {
        "0x"@ + upper_hex(self.0) + " is invalid TIS-620 byte."@
    }

    /// The error as a sentence, such as `0x28 is invalid TIS-620 byte.`.
    pub fn message(&self) -> (text: String)
        ensures
            text@ == self.message_text(),
    {
        let mut text = String::new();
        text.append("0x");
        if self.0 >= 16 {
            text.push(hex_digit_char(self.0 / 16));
        }
        text.push(hex_digit_char(self.0 % 16));
        text.append(" is invalid TIS-620 byte.");
        proof {
            let digits = upper_hex(self.0);
            assert(text@ =~= "0x"@ + digits + " is invalid TIS-620 byte."@);
        }
        text
    }
}

impl EncodeError {
    /// The message: the character as `Debug` writes it, and what is wrong
    /// with it.
    pub open spec fn message_text(self) -> Seq<char> {
        char_debug_text(self.0) + " is invalid TIS-620 character."@
    }

    /// The error as a sentence, such as `'µ' is invalid TIS-620 character.`.
    pub fn message(&self) -> (text: String)
        ensures
            text@ == self.message_text(),
    {
        invalid_character_message(debug_text(self.0))
    }
}

} // verus!
