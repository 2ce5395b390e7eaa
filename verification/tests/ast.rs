use monkey_lexer::ast::{Identifier, LetStatement, Node, Program, Statement};
use monkey_lexer::token::Token;

#[test]
fn simply_way_construct_ast() {
    let ident = Identifier { token: Token::Ident("ident".into()), value: "".into() };

    let expr = Identifier { token: Token::Ident("expr".into()), value: "".into() };

    let let_stmt = LetStatement { token: Token::Let, name: Box::new(ident), value: Box::new(expr) };

    let mut stmts: Vec<Box<dyn Statement>> = Vec::new();
    stmts.push(Box::new(let_stmt));

    let _root = Program { statements: stmts };
}

#[test]
fn identifier_shows_its_name() {
    let ident = Identifier { token: Token::Ident("ident".into()), value: "".into() };
    assert_eq!(ident.token_literal(), "ident");
}

#[test]
fn identifier_without_identifier_token_shows_nothing() {
    let ident = Identifier { token: Token::Let, value: "x".into() };
    assert_eq!(ident.token_literal(), "");
    let number = Identifier { token: Token::Int("5".into()), value: "5".into() };
    assert_eq!(number.token_literal(), "");
}

#[test]
fn empty_program_shows_nothing() {
    let root = Program { statements: Vec::new() };
    assert_eq!(root.token_literal(), "");
}

#[test]
fn program_shows_its_first_statement() {
    let ident = Identifier { token: Token::Ident("ident".into()), value: "".into() };
    let expr = Identifier { token: Token::Ident("expr".into()), value: "".into() };
    let let_stmt = LetStatement { token: Token::Let, name: Box::new(ident), value: Box::new(expr) };
    assert_eq!(let_stmt.token_literal(), "");
    assert_eq!(let_stmt.statement_token_literal(), "");
    let stmts: Vec<Box<dyn Statement>> = vec![Box::new(let_stmt)];
    let root = Program { statements: stmts };
    assert_eq!(root.token_literal(), "");
}
