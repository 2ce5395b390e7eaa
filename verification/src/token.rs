//! The token model: the lexical categories and the rules that classify text.
use vstd::prelude::*;

verus! {

/// One lexical unit. Identifiers and integer literals own their source text.
#[derive(Debug)]
pub enum Token {
    Unknown,
    Eof,
    LParen,
    RParen,
    LBrace,
    RBrace,
    Comma,
    Semicolon,
    Assign,
    Plus,
    Minus,
    Asterisk,
    Slash,
    GT,
    LT,
    Eq,
    NotEq,
    Let,
    Function,
    Ident(String),
    Int(String),
}

/// The mathematical value of a [`Token`]: the same categories, with the
/// payload text as a sequence of characters.
pub enum TokenView {
    Unknown,
    Eof,
    LParen,
    RParen,
    LBrace,
    RBrace,
    Comma,
    Semicolon,
    Assign,
    Plus,
    Minus,
    Asterisk,
    Slash,
    GT,
    LT,
    Eq,
    NotEq,
    Let,
    Function,
    Ident(Seq<char>),
    Int(Seq<char>),
}

impl View for Token {
    type V = TokenView;

    open spec fn view(&self) -> TokenView {
        match self {
            Token::Unknown => TokenView::Unknown,
            Token::Eof => TokenView::Eof,
            Token::LParen => TokenView::LParen,
            Token::RParen => TokenView::RParen,
            Token::LBrace => TokenView::LBrace,
            Token::RBrace => TokenView::RBrace,
            Token::Comma => TokenView::Comma,
            Token::Semicolon => TokenView::Semicolon,
            Token::Assign => TokenView::Assign,
            Token::Plus => TokenView::Plus,
            Token::Minus => TokenView::Minus,
            Token::Asterisk => TokenView::Asterisk,
            Token::Slash => TokenView::Slash,
            Token::GT => TokenView::GT,
            Token::LT => TokenView::LT,
            Token::Eq => TokenView::Eq,
            Token::NotEq => TokenView::NotEq,
            Token::Let => TokenView::Let,
            Token::Function => TokenView::Function,
            Token::Ident(text) => TokenView::Ident(text@),
            Token::Int(text) => TokenView::Int(text@),
        }
    }
}

impl PartialEq for Token {
    /// Two tokens are equal when they are of the same category and, where
    /// they carry text, carry the same text.
    fn eq(&self, other: &Token) -> (same: bool) {
        match (self, other) {
            (Token::Unknown, Token::Unknown) => true,
            (Token::Eof, Token::Eof) => true,
            (Token::LParen, Token::LParen) => true,
            (Token::RParen, Token::RParen) => true,
            (Token::LBrace, Token::LBrace) => true,
            (Token::RBrace, Token::RBrace) => true,
            (Token::Comma, Token::Comma) => true,
            (Token::Semicolon, Token::Semicolon) => true,
            (Token::Assign, Token::Assign) => true,
            (Token::Plus, Token::Plus) => true,
            (Token::Minus, Token::Minus) => true,
            (Token::Asterisk, Token::Asterisk) => true,
            (Token::Slash, Token::Slash) => true,
            (Token::GT, Token::GT) => true,
            (Token::LT, Token::LT) => true,
            (Token::Eq, Token::Eq) => true,
            (Token::NotEq, Token::NotEq) => true,
            (Token::Let, Token::Let) => true,
            (Token::Function, Token::Function) => true,
            (Token::Ident(mine), Token::Ident(theirs)) => *mine == *theirs,
            (Token::Int(mine), Token::Int(theirs)) => *mine == *theirs,
            _ => false,
        }
    }
}

impl vstd::std_specs::cmp::PartialEqSpecImpl for Token {
    open spec fn obeys_eq_spec() -> bool {
        true
    }

    open spec fn eq_spec(&self, other: &Token) -> bool {
        self@ == other@
    }
}

/// The token that a single character stands for on its own.
pub open spec fn single_char_token(ch: char) -> TokenView {
    if ch == '(' {
        TokenView::LParen
    } else if ch == ')' {
        TokenView::RParen
    } else if ch == '{' {
        TokenView::LBrace
    } else if ch == '}' {
        TokenView::RBrace
    } else if ch == ',' {
        TokenView::Comma
    } else if ch == ';' {
        TokenView::Semicolon
    } else if ch == '=' {
        TokenView::Assign
    } else if ch == '+' {
        TokenView::Plus
    } else if ch == '-' {
        TokenView::Minus
    } else if ch == '*' {
        TokenView::Asterisk
    } else if ch == '/' {
        TokenView::Slash
    } else if ch == '>' {
        TokenView::GT
    } else if ch == '<' {
        TokenView::LT
    } else {
        TokenView::Unknown
    }
}

/// The token that an ordered pair of characters stands for.
pub open spec fn two_char_token(first: char, second: char) -> TokenView {
    if first == '=' && second == '=' {
        TokenView::Eq
    } else if first == '!' && second == '=' {
        TokenView::NotEq
    } else {
        TokenView::Unknown
    }
}

/// The token that a complete word stands for: a keyword, or else an
/// identifier that carries the word.
pub open spec fn word_token(word: Seq<char>) -> TokenView {
    if word == seq!['l', 'e', 't'] {
        TokenView::Let
    } else if word == seq!['f', 'n'] {
        TokenView::Function
    } else {
        TokenView::Ident(word)
    }
}

impl Token {
    /// Classifies one character; a character with no rule gives `Unknown`.
    pub fn from_single_char(ch: char) -> (tok: Token)
        ensures
            tok@ == single_char_token(ch),
    {
        match ch {
            '(' => Token::LParen,
            ')' => Token::RParen,
            '{' => Token::LBrace,
            '}' => Token::RBrace,
            ',' => Token::Comma,
            ';' => Token::Semicolon,
            '=' => Token::Assign,
            '+' => Token::Plus,
            '-' => Token::Minus,
            '*' => Token::Asterisk,
            '/' => Token::Slash,
            '>' => Token::GT,
            '<' => Token::LT,
            _ => Token::Unknown,
        }
    }

    /// Classifies an ordered pair of characters; a pair with no rule gives
    /// `Unknown`.
    pub fn from_two_chars(first: char, second: char) -> (tok: Token)
        ensures
            tok@ == two_char_token(first, second),
    {
        match (first, second) {
            ('=', '=') => Token::Eq,
            ('!', '=') => Token::NotEq,
            _ => Token::Unknown,
        }
    }

    /// Classifies a complete word.
    pub fn from_string(literal: String) -> (tok: Token)
        ensures
            tok@ == word_token(literal@),
    {
        proof {
            reveal_strlit("let");
            reveal_strlit("fn");
            assert("let"@ =~= seq!['l', 'e', 't']);
            assert("fn"@ =~= seq!['f', 'n']);
        }
        let word = literal.as_str();
        if word.eq("let") {
            Token::Let
        } else if word.eq("fn") {
            Token::Function
        } else {
            Token::Ident(literal)
        }
    }
}

} // verus!
