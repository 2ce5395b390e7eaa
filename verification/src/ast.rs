//! The shape of a syntax tree over the tokens: nodes, statements and
//! expressions.
use crate::token::Token;
use vstd::prelude::*;

verus! {

/// A node of the syntax tree.
pub trait Node {
    /// The text of the token that the node begins with; empty where the node
    /// has none to show.
    spec fn literal(&self) -> Seq<char>;

    /// Hands out [`Node::literal`] as a string.
    fn token_literal(&self) -> (text: String)
        ensures
            text@ == self.literal(),
    ;
}

/// A statement. A program holds its statements behind `dyn Statement`, so a
/// statement gives its literal through this trait as well.
pub trait Statement {
    /// The text of the token that the statement begins with.
    spec fn statement_literal(&self) -> Seq<char>;

    /// Hands out [`Statement::statement_literal`] as a string.
    fn statement_token_literal(&self) -> (text: String)
        ensures
            text@ == self.statement_literal(),
    ;

    /// Marks the type as a statement.
    fn statement_node(&self);
}

/// An expression.
pub trait Expression {
    /// Marks the type as an expression.
    fn expression_node(&self);
}

/// The root of a syntax tree: a sequence of statements.
pub struct Program {
    pub statements: Vec<Box<dyn Statement>>,
}

impl Node for Program {
    /// The literal of the first statement; empty for an empty program.
    open spec fn literal(&self) -> Seq<char> {
        if self.statements@.len() > 0 {
            self.statements@[0].statement_literal()
        } else {
            Seq::empty()
        }
    }

    fn token_literal(&self) -> (text: String) {
        if !self.statements.is_empty() {
            self.statements[0].statement_token_literal()
        } else {
            String::new()
        }
    }
}

/// A `let` statement: the name that is bound and the expression bound to it.
pub struct LetStatement {
    pub token: Token,
    pub name: Box<Identifier>,
    pub value: Box<dyn Expression>,
}

impl Node for LetStatement {
    /// A `let` statement shows no literal.
    open spec fn literal(&self) -> Seq<char> {
        Seq::empty()
    }

    fn token_literal(&self) -> (text: String) {
        String::new()
    }
}

impl Statement for LetStatement {
    open spec fn statement_literal(&self) -> Seq<char> {
        self.literal()
    }

    fn statement_token_literal(&self) -> (text: String) {
        self.token_literal()
    }

    fn statement_node(&self) {
    }
}

/// An identifier in expression position.
#[derive(Debug)]
pub struct Identifier {
    pub token: Token,
    pub value: String,
}

impl Node for Identifier {
    /// The name that the identifier token carries; empty where the token is
    /// no identifier.
    open spec fn literal(&self) -> Seq<char> {
        match self.token {
            Token::Ident(name) => name@,
            _ => Seq::empty(),
        }
    }

    fn token_literal(&self) -> (text: String) {
        if let Token::Ident(literal) = &self.token {
            literal.clone()
        } else {
            String::new()
        }
    }
}

impl Expression for Identifier {
    fn expression_node(&self) {
    }
}

} // verus!
