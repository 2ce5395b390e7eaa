//! Character classes that drive the scanner.
use crate::std_contracts::{unicode_alphabetic, unicode_whitespace};
use vstd::prelude::*;

verus! {

/// The decimal digits `'0'` to `'9'`.
pub open spec fn is_digit(c: char) -> bool {
    '0' <= c && c <= '9'
}

/// The alphabetic characters: in the ASCII range the letters `a` to `z` and
/// `A` to `Z`, beyond it what the Unicode tables class as alphabetic.
pub open spec fn is_alphabetic_char(c: char) -> bool {
    if c <= '\u{7f}' {
        ('a' <= c && c <= 'z') || ('A' <= c && c <= 'Z')
    } else {
        unicode_alphabetic(c)
    }
}

/// The whitespace characters: in the ASCII range the space and the controls
/// from tab to carriage return, beyond it what the Unicode tables class as
/// whitespace.
pub open spec fn is_whitespace_char(c: char) -> bool {
    if c <= '\u{7f}' {
        c == ' ' || ('\t' <= c && c <= '\r')
    } else {
        unicode_whitespace(c)
    }
}

/// The characters an identifier or keyword is made of: alphabetic characters
/// and the underscore. Digits are not among them.
pub open spec fn is_word_char(c: char) -> bool {
    is_alphabetic_char(c) || c == '_'
}

/// The characters that can open a two-character operator.
pub open spec fn opens_pair(c: char) -> bool {
    c == '=' || c == '!'
}

/// Decides [`is_word_char`].
pub fn can_be_in_identifier(sym: char) -> (b: bool)
    ensures
        b == is_word_char(sym),
{
    sym.is_alphabetic() || sym == '_'
}

/// Decides [`opens_pair`].
pub fn can_begin_two_chars_token(ch: char) -> (b: bool)
    ensures
        b == opens_pair(ch),
{
    ch == '=' || ch == '!'
}

} // verus!
