//! What is taken on trust from the standard library's strings.

use vstd::prelude::*;

verus! {

/// `String::push` of the standard library: the string afterwards is the
/// string before with `ch` added at its end.
pub assume_specification[ String::push ](s: &mut String, ch: char)
    ensures
        final(s)@ == old(s)@.push(ch),
;

/// What the standard library's `Debug` writes for a character: the character
/// between single quotes, or its escape where it has one.
pub uninterp spec fn char_debug_text(c: char) -> Seq<char>;

/// Formats a character with `{:?}`, that is with `Debug` of the standard
/// library. The contract only names the text that comes back.
#[verifier::external_body]
pub(crate) fn debug_text(c: char) -> (text: String)
    ensures
        text@ == char_debug_text(c),
{
    format!("{:?}", c)
}

} // verus!
