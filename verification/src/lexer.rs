//! The scanner: a cursor over an input text that hands out one token per
//! call.
use crate::charclass::{
    can_be_in_identifier, can_begin_two_chars_token, is_digit, is_whitespace_char, is_word_char,
};
use crate::scan::{lemma_run_is_maximal, lemma_scan_advances, run_end, scan, CharClass};
use crate::token::{Token, TokenView};
use vstd::prelude::*;

verus! {

/// A cursor over a text. Besides the position it caches the character under
/// the cursor and the one behind it.
pub struct Lexer {
    input_chars: Vec<char>,
    pos: usize,
    sym: Option<char>,
    next_sym: Option<char>,
}

/// The character of `text` at `at`, if the text reaches that far.
pub open spec fn char_at(text: Seq<char>, at: int) -> Option<char> {
    if 0 <= at < text.len() {
        Some(text[at])
    } else {
        None
    }
}

impl Lexer {
    /// The text that is being scanned.
    pub closed spec fn text(&self) -> Seq<char> {
        self.input_chars@
    }

    /// The position of the cursor: the number of characters consumed so far.
    pub closed spec fn cursor(&self) -> int {
        self.pos as int
    }

    /// The character under the cursor, as the lexer caches it.
    pub closed spec fn current(&self) -> Option<char> {
        self.sym
    }

    /// The character behind the one under the cursor, as the lexer caches it.
    pub closed spec fn lookahead(&self) -> Option<char> {
        self.next_sym
    }

    /// The two cached characters are those at the cursor and behind it. So
    /// there is no current character exactly when the cursor is at or past
    /// the end of the text.
    pub open spec fn cached(&self) -> bool {
        &&& 0 <= self.cursor()
        &&& self.current() == char_at(self.text(), self.cursor())
        &&& self.lookahead() == char_at(self.text(), self.cursor() + 1)
    }

    /// The state between two calls of `next_token`: the cache is right, the
    /// cursor lies within the text or at its end, and the text is no longer
    /// than a `usize` can count.
    pub open spec fn wf(&self) -> bool {
        &&& self.cached()
        &&& self.cursor() <= self.text().len()
        &&& self.text().len() <= usize::MAX
    }

    /// A lexer at the start of `input`.
    pub fn new(input: &str) -> (lexer: Lexer)
        ensures
            lexer.wf(),
            lexer.text() == input@,
            lexer.cursor() == 0,
    {
        let mut input_chars: Vec<char> = Vec::new();
        for ch in iter: input.chars()
            invariant
                iter.seq() == input@,
                input_chars@ == iter.seq().take(iter.index()),
        {
            input_chars.push(ch);
        }
        let sym = if input_chars.len() > 0 {
            Some(input_chars[0])
        } else {
            None
        };
        let next_sym = if input_chars.len() > 1 {
            Some(input_chars[1])
        } else {
            None
        };
        Lexer { input_chars, pos: 0, sym, next_sym }
    }

    /// Passes over whitespace, then reads one token and moves the cursor
    /// behind it. At the end of the text the token is `Eof` and the cursor
    /// stays where it is; every other token moves the cursor forward.
    pub fn next_token(&mut self) -> (tok: Token)
        requires
            old(self).wf(),
        ensures
            final(self).wf(),
            final(self).text() == old(self).text(),
            tok@ == scan(old(self).text(), old(self).cursor()).token,
            final(self).cursor() == scan(old(self).text(), old(self).cursor()).end,
            tok@ == TokenView::Eof ==> final(self).cursor() == final(self).text().len(),
            tok@ != TokenView::Eof ==> final(self).cursor() > old(self).cursor(),
            old(self).cursor() == old(self).text().len() ==> tok@ == TokenView::Eof,
    {
        proof {
            lemma_scan_advances(self.text(), self.cursor());
        }
        self.skip_whitespaces();
        match self.sym {
            None => Token::Eof,
            Some(sym) => {
                if can_be_in_identifier(sym) {
                    let ident_literal = self.read_identifier();
                    Token::from_string(ident_literal)
                } else if sym.is_ascii_digit() {
                    let int_literal = self.read_integer();
                    Token::Int(int_literal)
                } else {
                    let mut tok = Token::Unknown;
                    if can_begin_two_chars_token(sym) {
                        if let Some(next_sym) = self.next_sym {
                            tok = Token::from_two_chars(sym, next_sym);
                        }
                    }
                    if tok != Token::Unknown {
                        self.read_sym();
                    } else {
                        tok = Token::from_single_char(sym);
                    }
                    self.read_sym();
                    tok
                }
            },
        }
    }

    /// Moves the cursor one character on and refreshes the cached characters:
    /// the character that was behind the cursor is now under it. From the end
    /// of the text the cursor moves one past the end, and there is no current
    /// character.
    fn read_sym(&mut self)
        requires
            old(self).cached(),
            old(self).cursor() <= old(self).text().len(),
            old(self).cursor() < usize::MAX,
        ensures
            final(self).cached(),
            final(self).text() == old(self).text(),
            final(self).cursor() == old(self).cursor() + 1,
            final(self).current() == old(self).lookahead(),
    {
        let len = self.input_chars.len();
        self.pos += 1;
        self.sym = self.next_sym;
        self.next_sym = if self.pos < len && len - self.pos > 1 {
            Some(self.input_chars[self.pos + 1])
        } else {
            None
        };
    }

    /// Moves the cursor past the whitespace that it stands on.
    fn skip_whitespaces(&mut self)
        requires
            old(self).wf(),
        ensures
            final(self).wf(),
            final(self).text() == old(self).text(),
            final(self).cursor() == run_end(
                old(self).text(),
                old(self).cursor(),
                CharClass::Whitespace,
            ),
            match final(self).current() {
                Some(sym) => !is_whitespace_char(sym),
                None => true,
            },
    {
        proof {
            lemma_run_is_maximal(self.text(), self.cursor(), CharClass::Whitespace);
        }
        loop
            invariant
                self.wf(),
                self.text() == old(self).text(),
                run_end(self.text(), self.cursor(), CharClass::Whitespace) == run_end(
                    old(self).text(),
                    old(self).cursor(),
                    CharClass::Whitespace,
                ),
            ensures
                self.cursor() == run_end(self.text(), self.cursor(), CharClass::Whitespace),
            decreases self.text().len() - self.cursor(),
        {
            match self.sym {
                Some(sym) if sym.is_whitespace() => {
                    self.read_sym();
                },
                _ => {
                    break ;
                },
            }
        }
    }

    /// Reads the longest run of word characters that starts under the cursor
    /// and moves the cursor behind it.
    fn read_identifier(&mut self) -> (run: String)
        requires
            old(self).wf(),
        ensures
            final(self).wf(),
            final(self).text() == old(self).text(),
            final(self).cursor() == run_end(old(self).text(), old(self).cursor(), CharClass::Word),
            run@ == old(self).text().subrange(old(self).cursor(), final(self).cursor()),
            run@.len() == final(self).cursor() - old(self).cursor(),
            forall|i: int| 0 <= i < run@.len() ==> is_word_char(#[trigger] run@[i]),
            match final(self).current() {
                Some(sym) => !is_word_char(sym),
                None => true,
            },
    {
        proof {
            lemma_run_is_maximal(self.text(), self.cursor(), CharClass::Word);
        }
        let mut run = String::new();
        loop
            invariant
                self.wf(),
                self.text() == old(self).text(),
                old(self).cursor() <= self.cursor(),
                run@ == self.text().subrange(old(self).cursor(), self.cursor()),
                run_end(self.text(), self.cursor(), CharClass::Word) == run_end(
                    old(self).text(),
                    old(self).cursor(),
                    CharClass::Word,
                ),
            ensures
                self.cursor() == run_end(self.text(), self.cursor(), CharClass::Word),
            decreases self.text().len() - self.cursor(),
        {
            match self.sym {
                Some(sym) if can_be_in_identifier(sym) => {
                    run.push(sym);
                    self.read_sym();
                    assert(run@ =~= self.text().subrange(old(self).cursor(), self.cursor()));
                },
                _ => {
                    break ;
                },
            }
        }
        run
    }

    /// Reads the longest run of digits that starts under the cursor and moves
    /// the cursor behind it.
    fn read_integer(&mut self) -> (run: String)
        requires
            old(self).wf(),
        ensures
            final(self).wf(),
            final(self).text() == old(self).text(),
            final(self).cursor() == run_end(old(self).text(), old(self).cursor(), CharClass::Digit),
            run@ == old(self).text().subrange(old(self).cursor(), final(self).cursor()),
            run@.len() == final(self).cursor() - old(self).cursor(),
            forall|i: int| 0 <= i < run@.len() ==> is_digit(#[trigger] run@[i]),
            match final(self).current() {
                Some(sym) => !is_digit(sym),
                None => true,
            },
    {
        proof {
            lemma_run_is_maximal(self.text(), self.cursor(), CharClass::Digit);
        }
        let mut run = String::new();
        loop
            invariant
                self.wf(),
                self.text() == old(self).text(),
                old(self).cursor() <= self.cursor(),
                run@ == self.text().subrange(old(self).cursor(), self.cursor()),
                run_end(self.text(), self.cursor(), CharClass::Digit) == run_end(
                    old(self).text(),
                    old(self).cursor(),
                    CharClass::Digit,
                ),
            ensures
                self.cursor() == run_end(self.text(), self.cursor(), CharClass::Digit),
            decreases self.text().len() - self.cursor(),
        {
            match self.sym {
                Some(sym) if sym.is_ascii_digit() => {
                    run.push(sym);
                    self.read_sym();
                    assert(run@ =~= self.text().subrange(old(self).cursor(), self.cursor()));
                },
                _ => {
                    break ;
                },
            }
        }
        run
    }
}

} // verus!
