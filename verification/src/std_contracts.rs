//! What this library takes on trust from the standard library: the contracts
//! below are believed, not proved.
use vstd::prelude::*;

verus! {

/// Whether the Unicode tables of the standard library class `c`, a character
/// beyond the ASCII range, as `Alphabetic`.
pub uninterp spec fn unicode_alphabetic(c: char) -> bool;

/// Whether the Unicode tables of the standard library class `c`, a character
/// beyond the ASCII range, as `White_Space`.
pub uninterp spec fn unicode_whitespace(c: char) -> bool;

/// `char::is_alphabetic` is documented to hold of the characters that the
/// Unicode Character Database classes as `Alphabetic`. Up to `U+007F` these
/// are the 52 letters `a` to `z` and `A` to `Z`, which is stated outright.
/// Beyond that range the answer comes from the tables built into the
/// standard library; it depends on the character alone and is taken as the
/// meaning of [`unicode_alphabetic`].
pub assume_specification[ char::is_alphabetic ](c: char) -> (b: bool)
    ensures
        b == (if c <= '\u{7f}' {
            ('a' <= c && c <= 'z') || ('A' <= c && c <= 'Z')
        } else {
            unicode_alphabetic(c)
        }),
;

/// `char::is_whitespace` is documented to hold of the characters that the
/// Unicode Character Database classes as `White_Space`. Up to `U+007F` these
/// are the space and the five controls from `U+0009` (tab) to `U+000D`
/// (carriage return), which is stated outright. Beyond that range the answer
/// comes from the tables built into the standard library; it depends on the
/// character alone and is taken as the meaning of [`unicode_whitespace`].
pub assume_specification[ char::is_whitespace ](c: char) -> (b: bool)
    ensures
        b == (if c <= '\u{7f}' {
            c == ' ' || ('\t' <= c && c <= '\r')
        } else {
            unicode_whitespace(c)
        }),
;

/// `char::is_ascii_digit` is documented to hold exactly of the ten characters
/// from `'0'` to `'9'`.
pub assume_specification[ char::is_ascii_digit ](c: &char) -> (b: bool)
    ensures
        b == ('0' <= *c && *c <= '9'),
;

/// Equality of string slices, `<str as PartialEq>::eq`, is documented to hold
/// exactly when the two slices spell the same text.
pub assume_specification[ <str as PartialEq>::eq ](a: &str, b: &str) -> (same: bool)
    ensures
        same == (a@ == b@),
;

/// `String::push` is documented to append the character to the end of the
/// string. Like every allocation it can fail where memory runs out; nothing
/// is said of that here.
pub assume_specification[ String::push ](text: &mut String, ch: char)
    ensures
        final(text)@ == old(text)@.push(ch),
;

} // verus!
