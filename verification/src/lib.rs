//! Front end of a small interpreted language: a lexical scanner that turns
//! source text into tokens, and a recursive-descent parser with a Pratt-style
//! expression dispatch that builds an abstract syntax tree and collects
//! human-readable diagnostics instead of aborting on malformed input.

pub mod ast;
pub mod expressions;
pub mod identifier;
pub mod lexer;
pub mod parser;
pub mod statements;
pub mod token;
