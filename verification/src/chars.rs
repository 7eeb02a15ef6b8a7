//! What the library takes from std on characters and strings without
//! proof: which characters are white space, and how a string grows.

use vstd::prelude::*;

verus! {

/// Whether `c` is white space: what `char::is_whitespace` returns for it.
pub uninterp spec fn is_white_space(c: char) -> bool;

/// `char::is_whitespace` of std: whether the character has the Unicode
/// property `White_Space`. Trusted: the answer depends on the character
/// alone, and `is_white_space` is its name.
pub assume_specification[ char::is_whitespace ](c: char) -> (b: bool)
    ensures
        b == is_white_space(c),
;

/// `String::push` of std. Trusted: it appends the character to the end of
/// the string and changes nothing else.
pub assume_specification[ String::push ](text: &mut String, c: char)
    ensures
        final(text)@ == old(text)@.push(c),
;

} // verus!
