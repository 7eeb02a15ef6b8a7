//! The patterns that the rule table is written in, and the regex engine
//! that decides whether one accepts an element.
//!
//! A pattern is the text of a regular expression. The rule table uses two
//! shapes only: `^WORD$`, which accepts the one text `WORD`, and
//! `^[a-z0-9]+$`, which accepts every nonempty text of lowercase letters and
//! digits. What such a pattern accepts is stated here as a spec function;
//! the matching itself is done by the `regex` crate.

use vstd::prelude::*;

verus! {

/// `regex::Error`, the error that `regex::Regex::new` returns for a pattern
/// that it cannot compile. It is carried through, and nothing is known of
/// what it holds.
#[verifier::external_type_specification]
#[verifier::external_body]
pub struct ExRegexError(regex::Error);

/// The longest pattern text that counts as supported: far shorter than any
/// that the regex engine refuses for its size.
pub const MAX_PATTERN_LEN: usize = 64;

/// A character that stands for itself in a pattern.
pub open spec fn is_literal_char(c: char) -> bool {
    ('A' <= c && c <= 'Z') || ('a' <= c && c <= 'z') || ('0' <= c && c <= '9') || c == '='
}

/// A pattern of the shape `^WORD$`, where `WORD` is made of literal
/// characters only.
pub open spec fn is_exact_pattern(pattern: Seq<char>) -> bool {
    &&& 2 <= pattern.len() <= MAX_PATTERN_LEN
    &&& pattern[0] == '^'
    &&& pattern[pattern.len() - 1] == '$'
    &&& forall|i: int| 0 < i < pattern.len() - 1 ==> is_literal_char(#[trigger] pattern[i])
}

/// The `WORD` of a pattern `^WORD$`.
pub open spec fn exact_word(pattern: Seq<char>) -> Seq<char> {
    pattern.subrange(1, pattern.len() - 1)
}

/// The pattern of free-form values.
pub open spec fn value_pattern() -> Seq<char> {
    "^[a-z0-9]+$"@
}

/// A lowercase ASCII letter or an ASCII digit.
pub open spec fn is_value_char(c: char) -> bool {
    ('a' <= c && c <= 'z') || ('0' <= c && c <= '9')
}

/// A nonempty text of lowercase ASCII letters and ASCII digits.
pub open spec fn is_value(text: Seq<char>) -> bool {
    &&& text.len() >= 1
    &&& forall|i: int| 0 <= i < text.len() ==> is_value_char(#[trigger] text[i])
}

/// The patterns whose meaning this module states.
pub open spec fn is_supported_pattern(pattern: Seq<char>) -> bool {
    is_exact_pattern(pattern) || pattern == value_pattern()
}

/// Whether a supported pattern accepts the whole of `text`. A pattern that
/// is not supported accepts nothing here, and no rule holds one.
pub open spec fn pattern_accepts(pattern: Seq<char>, text: Seq<char>) -> bool {
    if pattern == value_pattern() {
        is_value(text)
    } else {
        is_exact_pattern(pattern) && text == exact_word(pattern)
    }
}

/// Asks the `regex` crate whether `pattern` matches `haystack`: compiles
/// the pattern with `regex::Regex::new` and calls `Regex::is_match` on what
/// was compiled.
///
/// Trusted, not proved. A supported pattern is valid syntax of the crate and
/// far below its size limit, so it compiles. In it `^` matches only at the
/// beginning of the haystack and `$` only at its end, every character of
/// `WORD` matches itself and no other, `[a-z0-9]` matches one character of
/// these two ranges, and `+` repeats it once or more: so the regex matches
/// exactly where `pattern_accepts` holds of the whole haystack.
#[verifier::external_body]
pub(crate) fn regex_match(pattern: &str, haystack: &str) -> (r: Result<bool, regex::Error>)
    requires
        is_supported_pattern(pattern@),
    ensures
        r is Ok,
        r matches Ok(found) ==> found == pattern_accepts(pattern@, haystack@),
{
    match regex::Regex::new(pattern) {
        Ok(re) => Ok(re.is_match(haystack)),
        Err(e) => Err(e),
    }
}

} // verus!
