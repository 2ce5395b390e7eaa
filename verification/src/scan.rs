//! The mathematical model of the scanner: which token starts at a position of
//! a text, and where the scan ends.
use crate::charclass::{is_digit, is_whitespace_char, is_word_char, opens_pair};
use crate::token::{single_char_token, two_char_token, word_token, TokenView};
use vstd::prelude::*;

verus! {

/// The three classes of characters that are consumed as runs.
pub enum CharClass {
    Whitespace,
    Word,
    Digit,
}

impl CharClass {
    /// Whether `c` belongs to the class.
    pub open spec fn contains(self, c: char) -> bool {
        match self {
            CharClass::Whitespace => is_whitespace_char(c),
            CharClass::Word => is_word_char(c),
            CharClass::Digit => is_digit(c),
        }
    }
}

/// The end of the longest run of characters of `class` that starts at `from`:
/// the first position at or after `from` whose character is outside the
/// class, or the end of the text.
pub open spec fn run_end(text: Seq<char>, from: int, class: CharClass) -> int
    decreases text.len() - from,
{
    if 0 <= from < text.len() && class.contains(text[from]) {
        run_end(text, from + 1, class)
    } else {
        from
    }
}

/// The outcome of one scan step: the token found and the position behind it.
pub struct Scanned {
    pub token: TokenView,
    pub end: int,
}

/// The token whose first character stands at `start`, a position that holds
/// no whitespace, and the position behind that token.
pub open spec fn scan_at(text: Seq<char>, start: int) -> Scanned {
    if !(0 <= start < text.len()) {
        Scanned { token: TokenView::Eof, end: start }
    } else if is_word_char(text[start]) {
        let end = run_end(text, start, CharClass::Word);
        Scanned { token: word_token(text.subrange(start, end)), end }
    } else if is_digit(text[start]) {
        let end = run_end(text, start, CharClass::Digit);
        Scanned { token: TokenView::Int(text.subrange(start, end)), end }
    } else if pair_at(text, start) {
        Scanned { token: two_char_token(text[start], text[start + 1]), end: start + 2 }
    } else {
        Scanned { token: single_char_token(text[start]), end: start + 1 }
    }
}

/// Whether a two-character operator stands at `start`.
pub open spec fn pair_at(text: Seq<char>, start: int) -> bool {
    &&& 0 <= start
    &&& start + 1 < text.len()
    &&& opens_pair(text[start])
    &&& two_char_token(text[start], text[start + 1]) != TokenView::Unknown
}

/// One scan step from `pos`: whitespace is passed over, then one token is
/// read. At the end of the text the token is `Eof`.
pub open spec fn scan(text: Seq<char>, pos: int) -> Scanned {
    scan_at(text, run_end(text, pos, CharClass::Whitespace))
}

/// The position reached after `calls` scan steps from `pos`.
pub open spec fn position_after(text: Seq<char>, pos: int, calls: nat) -> int
    decreases calls,
{
    if calls == 0 {
        pos
    } else {
        scan(text, position_after(text, pos, (calls - 1) as nat)).end
    }
}

/// The token that scan step number `index` from `pos` gives, counting from 0.
pub open spec fn token_of_call(text: Seq<char>, pos: int, index: nat) -> TokenView {
    scan(text, position_after(text, pos, index)).token
}

/// A run is maximal: it lies within the text, every character in it belongs
/// to the class, and the character behind it, if there is one, does not.
pub proof fn lemma_run_is_maximal(text: Seq<char>, from: int, class: CharClass)
    requires
        0 <= from <= text.len(),
    ensures
        from <= run_end(text, from, class) <= text.len(),
        forall|i: int| from <= i < run_end(text, from, class) ==> class.contains(#[trigger] text[i]),
        run_end(text, from, class) < text.len() ==> !class.contains(
            text[run_end(text, from, class)],
        ),
    decreases text.len() - from,
{
    if from < text.len() && class.contains(text[from]) {
        lemma_run_is_maximal(text, from + 1, class);
    }
}

/// A run has one end: a position that is reached through characters of the
/// class alone, and that is the end of the text or holds a character outside
/// the class, is the end of the run.
pub proof fn lemma_run_end_is_unique(text: Seq<char>, from: int, class: CharClass, end: int)
    requires
        0 <= from <= end <= text.len(),
        forall|i: int| from <= i < end ==> class.contains(#[trigger] text[i]),
        end < text.len() ==> !class.contains(text[end]),
    ensures
        run_end(text, from, class) == end,
    decreases end - from,
{
    if from < end {
        lemma_run_end_is_unique(text, from + 1, class, end);
    }
}

/// A scan step stays within the text and never moves back. It gives `Eof`
/// exactly when nothing but whitespace is left, and then it ends at the end
/// of the text; any other token moves the position forward.
pub proof fn lemma_scan_advances(text: Seq<char>, pos: int)
    requires
        0 <= pos <= text.len(),
    ensures
        pos <= scan(text, pos).end <= text.len(),
        scan(text, pos).token == TokenView::Eof <==> run_end(text, pos, CharClass::Whitespace)
            == text.len(),
        scan(text, pos).token == TokenView::Eof ==> scan(text, pos).end == text.len(),
        scan(text, pos).token != TokenView::Eof ==> scan(text, pos).end > pos,
{
    let start = run_end(text, pos, CharClass::Whitespace);
    lemma_run_is_maximal(text, pos, CharClass::Whitespace);
    if start < text.len() {
        lemma_run_is_maximal(text, start, CharClass::Word);
        lemma_run_is_maximal(text, start, CharClass::Digit);
    }
}

} // verus!
