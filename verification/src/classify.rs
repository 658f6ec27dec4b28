//! Character classes used for word motion and line-break detection.

use vstd::prelude::*;

verus! {

/// The class of a character for word-wise motion.
#[derive(Clone, Copy, PartialEq, Eq, Structural, Debug)]
pub enum CharType {
    Word,
    Punctuation,
    Linebreak,
}

/// The direction of a boundary scan.
#[derive(Clone, Copy, PartialEq, Eq, Structural, Debug)]
pub enum CharSearchDirection {
    Forward,
    Backward,
}

/// Whether `char::is_alphanumeric` holds of `c`: the Unicode property
/// Alphabetic or one of the numeric general categories.
pub uninterp spec fn alphanumeric(c: char) -> bool;

/// Calls `char::is_alphanumeric`. The contract only gives the result its name,
/// `alphanumeric`; nothing is claimed about which characters have the property.
#[verifier::external_body]
fn char_is_alphanumeric(c: char) -> (r: bool)
    ensures
        r == alphanumeric(c),
{
    c.is_alphanumeric()
}

/// The code points that end a line: LF, CR, VT, FF, NEL, LS and PS.
pub open spec fn is_linebreak_spec(c: char) -> bool {
    c == '\n' || c == '\r' || c == '\u{000B}' || c == '\u{000C}' || c == '\u{0085}' || c
        == '\u{2028}' || c == '\u{2029}'
}

/// A word character is alphanumeric or an underscore, so that `snake_case`
/// names move as one word.
pub open spec fn is_word_spec(c: char) -> bool {
    alphanumeric(c) || c == '_'
}

/// The class of `c`: word characters first, then line breaks, everything else
/// is punctuation.
pub open spec fn char_type_spec(c: char) -> CharType {
    if is_word_spec(c) {
        CharType::Word
    } else if is_linebreak_spec(c) {
        CharType::Linebreak
    } else {
        CharType::Punctuation
    }
}

#[verifier::when_used_as_spec(is_linebreak_spec)]
pub fn is_linebreak(chr: char) -> (r: bool)
    ensures
        r == is_linebreak_spec(chr),
{
    chr == '\n' || chr == '\r' || chr == '\u{000B}' || chr == '\u{000C}' || chr == '\u{0085}'
        || chr == '\u{2028}' || chr == '\u{2029}'
}

#[verifier::when_used_as_spec(is_word_spec)]
pub fn is_word(chr: char) -> (r: bool)
    ensures
        r == is_word_spec(chr),
{
    char_is_alphanumeric(chr) || chr == '_'
}

#[verifier::when_used_as_spec(char_type_spec)]
pub fn get_char_type(chr: char) -> (t: CharType)
    ensures
        t == char_type_spec(chr),
{
    if is_word(chr) {
        CharType::Word
    } else if is_linebreak(chr) {
        CharType::Linebreak
    } else {
        CharType::Punctuation
    }
}

} // verus!
