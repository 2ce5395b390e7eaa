use monkey_lexer::charclass::{can_be_in_identifier, can_begin_two_chars_token};
use monkey_lexer::token::Token;

#[test]
fn single_characters_by_table() {
    assert_eq!(Token::from_single_char('('), Token::LParen);
    assert_eq!(Token::from_single_char(')'), Token::RParen);
    assert_eq!(Token::from_single_char('{'), Token::LBrace);
    assert_eq!(Token::from_single_char('}'), Token::RBrace);
    assert_eq!(Token::from_single_char(','), Token::Comma);
    assert_eq!(Token::from_single_char(';'), Token::Semicolon);
    assert_eq!(Token::from_single_char('='), Token::Assign);
    assert_eq!(Token::from_single_char('+'), Token::Plus);
    assert_eq!(Token::from_single_char('-'), Token::Minus);
    assert_eq!(Token::from_single_char('*'), Token::Asterisk);
    assert_eq!(Token::from_single_char('/'), Token::Slash);
    assert_eq!(Token::from_single_char('>'), Token::GT);
    assert_eq!(Token::from_single_char('<'), Token::LT);
}

#[test]
fn other_single_characters_are_unknown() {
    for ch in ['!', '%', '^', '@', 'a', '1', ' ', '_', '[', ']', '\u{3bb}', '\0'] {
        assert_eq!(Token::from_single_char(ch), Token::Unknown);
    }
}

#[test]
fn two_characters_by_table() {
    assert_eq!(Token::from_two_chars('=', '='), Token::Eq);
    assert_eq!(Token::from_two_chars('!', '='), Token::NotEq);
}

#[test]
fn other_pairs_are_unknown() {
    for (first, second) in
        [('=', '!'), ('!', '!'), ('<', '='), ('>', '='), ('=', ' '), ('+', '+'), ('a', '=')]
    {
        assert_eq!(Token::from_two_chars(first, second), Token::Unknown);
    }
}

#[test]
fn words_are_keywords_or_identifiers() {
    assert_eq!(Token::from_string("let".to_string()), Token::Let);
    assert_eq!(Token::from_string("fn".to_string()), Token::Function);
    assert_eq!(Token::from_string("five".to_string()), Token::Ident("five".to_string()));
    assert_eq!(Token::from_string("lets".to_string()), Token::Ident("lets".to_string()));
    assert_eq!(Token::from_string("le".to_string()), Token::Ident("le".to_string()));
    assert_eq!(Token::from_string("f".to_string()), Token::Ident("f".to_string()));
    assert_eq!(Token::from_string("FN".to_string()), Token::Ident("FN".to_string()));
    assert_eq!(Token::from_string(String::new()), Token::Ident(String::new()));
}

#[test]
fn tokens_are_equal_by_category_and_text() {
    assert_eq!(Token::Ident("a".to_string()), Token::Ident("a".to_string()));
    assert_ne!(Token::Ident("a".to_string()), Token::Ident("b".to_string()));
    assert_ne!(Token::Ident("5".to_string()), Token::Int("5".to_string()));
    assert_eq!(Token::Int("5".to_string()), Token::Int("5".to_string()));
    assert_ne!(Token::Int("5".to_string()), Token::Int("05".to_string()));
    assert_ne!(Token::Eof, Token::Unknown);
    assert_ne!(Token::Eq, Token::Assign);
    assert_ne!(Token::Let, Token::Ident("let".to_string()));
    assert_eq!(Token::Eof, Token::Eof);
}

#[test]
fn every_plain_category_equals_itself_only() {
    let all = || {
        vec![
            Token::Unknown,
            Token::Eof,
            Token::LParen,
            Token::RParen,
            Token::LBrace,
            Token::RBrace,
            Token::Comma,
            Token::Semicolon,
            Token::Assign,
            Token::Plus,
            Token::Minus,
            Token::Asterisk,
            Token::Slash,
            Token::GT,
            Token::LT,
            Token::Eq,
            Token::NotEq,
            Token::Let,
            Token::Function,
            Token::Ident("x".to_string()),
            Token::Int("1".to_string()),
        ]
    };
    let left = all();
    let right = all();
    for (i, a) in left.iter().enumerate() {
        for (j, b) in right.iter().enumerate() {
            assert_eq!(a == b, i == j);
        }
    }
}

#[test]
fn tokens_print_their_category() {
    assert_eq!(format!("{:?}", Token::Let), "Let");
    assert_eq!(format!("{:?}", Token::Ident("five".to_string())), "Ident(\"five\")");
}

#[test]
fn word_characters() {
    for ch in ['a', 'z', 'A', 'Z', '_', '\u{e9}', '\u{3bb}', '\u{4eac}'] {
        assert!(can_be_in_identifier(ch));
    }
    for ch in ['0', '9', ' ', '-', '=', '!', '(', '\n', '\u{1f49d}'] {
        assert!(!can_be_in_identifier(ch));
    }
}

#[test]
fn characters_that_open_a_pair() {
    assert!(can_begin_two_chars_token('='));
    assert!(can_begin_two_chars_token('!'));
    for ch in ['<', '>', '+', 'a', ' ', '&', '|'] {
        assert!(!can_begin_two_chars_token(ch));
    }
}

#[test]
fn ascii_word_characters_are_the_letters_and_the_underscore() {
    for code in 0u8..=0x7f {
        let ch = char::from(code);
        let expected = ch.is_ascii_lowercase() || ch.is_ascii_uppercase() || ch == '_';
        assert_eq!(can_be_in_identifier(ch), expected);
    }
}
