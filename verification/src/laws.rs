//! What holds of every scan: the laws that callers of the lexer may rely on,
//! each proved from the model in [`crate::scan`].
//!
//! Beyond the ASCII range the Unicode tables of the standard library decide
//! which characters are whitespace and which are alphabetic. Where a law
//! speaks of such a character, it says in its `requires` what class the
//! character is meant to be of; of an ASCII character nothing needs saying.
use crate::charclass::{is_digit, is_whitespace_char, is_word_char, opens_pair};
use crate::scan::{
    lemma_run_end_is_unique, lemma_run_is_maximal, lemma_scan_advances, pair_at, position_after,
    run_end, scan, token_of_call, CharClass, Scanned,
};
use crate::token::{single_char_token, two_char_token, word_token, TokenView};
use vstd::prelude::*;

verus! {

/// Repeated scanning never leaves the text, and after `calls` steps it has
/// either consumed at least `calls` characters or reached the end.
pub proof fn lemma_position_after_grows(text: Seq<char>, pos: int, calls: nat)
    requires
        0 <= pos <= text.len(),
    ensures
        pos <= position_after(text, pos, calls) <= text.len(),
        position_after(text, pos, calls) >= pos + calls || position_after(text, pos, calls)
            == text.len(),
    decreases calls,
{
    if calls > 0 {
        let before = position_after(text, pos, (calls - 1) as nat);
        lemma_position_after_grows(text, pos, (calls - 1) as nat);
        lemma_scan_advances(text, before);
    }
}

/// The end of input is reached and kept: from a position with `n` characters
/// left, scan step number `n` (counting from 0) gives `Eof`, and so does
/// every step after it.
pub proof fn lemma_eof_tail(text: Seq<char>, pos: int, index: nat)
    requires
        0 <= pos <= text.len(),
        index >= text.len() - pos,
    ensures
        token_of_call(text, pos, index) == TokenView::Eof,
        position_after(text, pos, index) == text.len(),
{
    lemma_position_after_grows(text, pos, index);
    lemma_scan_advances(text, text.len() as int);
}

/// `Eof` is final: once a scan step has given `Eof`, the step after it gives
/// `Eof` again and leaves the position where it was.
pub proof fn lemma_eof_is_stable(text: Seq<char>, pos: int)
    requires
        0 <= pos <= text.len(),
        scan(text, pos).token == TokenView::Eof,
    ensures
        scan(text, scan(text, pos).end) == scan(text, pos),
{
    lemma_scan_advances(text, pos);
    lemma_scan_advances(text, text.len() as int);
}

/// Where nothing but whitespace is left, the scan gives `Eof`.
pub proof fn lemma_blank_rest_gives_eof(text: Seq<char>, pos: int)
    requires
        0 <= pos <= text.len(),
        forall|i: int| pos <= i < text.len() ==> is_whitespace_char(#[trigger] text[i]),
    ensures
        scan(text, pos) == (Scanned { token: TokenView::Eof, end: text.len() as int }),
{
    lemma_run_end_is_unique(text, pos, CharClass::Whitespace, text.len() as int);
}

/// Whitespace before a token changes nothing but the starting point: the
/// scan from `pos` is the scan from the first position at or after `pos`
/// that holds no whitespace.
pub proof fn lemma_whitespace_is_skipped(text: Seq<char>, pos: int, start: int)
    requires
        0 <= pos <= start <= text.len(),
        forall|i: int| pos <= i < start ==> is_whitespace_char(#[trigger] text[i]),
        start < text.len() ==> !is_whitespace_char(text[start]),
    ensures
        scan(text, pos) == scan(text, start),
{
    lemma_run_end_is_unique(text, pos, CharClass::Whitespace, start);
    lemma_run_end_is_unique(text, start, CharClass::Whitespace, start);
}

/// The characters that have a token of their own, and `!`, which has none
/// but opens `!=`.
pub open spec fn is_punctuation(ch: char) -> bool {
    single_char_token(ch) != TokenView::Unknown || ch == '!'
}

/// On `=` and on `!` a two-character operator is tried first: before `=`
/// the two characters are consumed as `==` or `!=`. Before any other
/// character, and at the end of the text, the character is classified on its
/// own and consumed alone: `=` is then an assignment, `!` is unknown.
pub proof fn lemma_pair_before_single(text: Seq<char>, pos: int)
    requires
        0 <= pos < text.len(),
        opens_pair(text[pos]),
    ensures
        pair_at(text, pos) <==> pos + 1 < text.len() && text[pos + 1] == '=',
        pair_at(text, pos) ==> scan(text, pos) == (Scanned {
            token: two_char_token(text[pos], '='),
            end: pos + 2,
        }),
        !pair_at(text, pos) ==> scan(text, pos) == (Scanned {
            token: single_char_token(text[pos]),
            end: pos + 1,
        }),
        text[pos] == '=' && pair_at(text, pos) ==> scan(text, pos).token == TokenView::Eq,
        text[pos] == '!' && pair_at(text, pos) ==> scan(text, pos).token == TokenView::NotEq,
        text[pos] == '=' && !pair_at(text, pos) ==> scan(text, pos).token == TokenView::Assign,
        text[pos] == '!' && !pair_at(text, pos) ==> scan(text, pos).token == TokenView::Unknown,
{
    lemma_run_end_is_unique(text, pos, CharClass::Whitespace, pos);
}

/// A character that opens no two-character operator, and that is neither
/// whitespace, nor part of a word, nor a digit, is classified on its own and
/// consumed alone.
pub proof fn lemma_single_character(text: Seq<char>, pos: int)
    requires
        0 <= pos < text.len(),
        !opens_pair(text[pos]),
        !is_whitespace_char(text[pos]),
        !is_word_char(text[pos]),
        !is_digit(text[pos]),
    ensures
        scan(text, pos) == (Scanned { token: single_char_token(text[pos]), end: pos + 1 }),
{
    lemma_run_end_is_unique(text, pos, CharClass::Whitespace, pos);
}

/// A punctuation character that is the whole text gives exactly one token,
/// the one that the table of single characters holds for it, and then `Eof`.
pub proof fn lemma_lone_character(ch: char)
    requires
        is_punctuation(ch),
    ensures
        scan(seq![ch], 0) == (Scanned { token: single_char_token(ch), end: 1 }),
        scan(seq![ch], 1) == (Scanned { token: TokenView::Eof, end: 1 }),
{
    let text = seq![ch];
    if opens_pair(ch) {
        lemma_pair_before_single(text, 0);
    } else {
        lemma_single_character(text, 0);
    }
    lemma_run_end_is_unique(text, 1, CharClass::Whitespace, 1);
}

/// A character that no rule knows gives `Unknown` and is consumed alone, so
/// the scan moves on.
pub proof fn lemma_unknown_character(text: Seq<char>, pos: int)
    requires
        0 <= pos < text.len(),
        !is_whitespace_char(text[pos]),
        !is_word_char(text[pos]),
        !is_digit(text[pos]),
        !is_punctuation(text[pos]),
    ensures
        scan(text, pos) == (Scanned { token: TokenView::Unknown, end: pos + 1 }),
{
    lemma_single_character(text, pos);
}

/// An integer literal is the longest run of digits: it carries every digit
/// from its first to the last before a character that is no digit, or before
/// the end of the text.
pub proof fn lemma_integer_is_maximal(text: Seq<char>, pos: int)
    requires
        0 <= pos < text.len(),
        is_digit(text[pos]),
    ensures
        scan(text, pos).token == TokenView::Int(text.subrange(pos, scan(text, pos).end)),
        pos < scan(text, pos).end <= text.len(),
        forall|i: int| pos <= i < scan(text, pos).end ==> is_digit(#[trigger] text[i]),
        scan(text, pos).end < text.len() ==> !is_digit(text[scan(text, pos).end]),
{
    lemma_run_end_is_unique(text, pos, CharClass::Whitespace, pos);
    lemma_run_is_maximal(text, pos, CharClass::Digit);
}

/// A word is the longest run of word characters: the scan ends behind the
/// last of them, and the token is the keyword or identifier that they spell.
/// Of a first character beyond the ASCII range the law asks that the tables
/// do not class it as whitespace too.
pub proof fn lemma_word_is_maximal(text: Seq<char>, pos: int)
    requires
        0 <= pos < text.len(),
        is_word_char(text[pos]),
        text[pos] > '\u{7f}' ==> !is_whitespace_char(text[pos]),
    ensures
        scan(text, pos).token == word_token(text.subrange(pos, scan(text, pos).end)),
        pos < scan(text, pos).end <= text.len(),
        forall|i: int| pos <= i < scan(text, pos).end ==> is_word_char(#[trigger] text[i]),
        scan(text, pos).end < text.len() ==> !is_word_char(text[scan(text, pos).end]),
{
    lemma_run_end_is_unique(text, pos, CharClass::Whitespace, pos);
    lemma_run_is_maximal(text, pos, CharClass::Word);
}

} // verus!
