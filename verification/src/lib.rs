//! A tokenizer for a small C-like scripting language.
//!
//! [`token`] defines the closed set of lexical categories and the pure rules
//! that classify fragments of text; [`lexer`] owns a cursor over an input
//! text and hands out one token per call. Every function is verified against
//! a mathematical model of the scan, given in [`scan`].
pub mod ast;
pub mod charclass;
pub mod laws;
pub mod lexer;
pub mod scan;
pub mod std_contracts;
pub mod token;
