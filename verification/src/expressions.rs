//! The expression model: a closed sum type over the known expression kinds.
//! The sole concrete kind present in this core is the identifier.

use vstd::prelude::*;
use crate::identifier::{Identifier, SpecIdentifier};
use crate::token::spec_literal;

verus! {

/// The mathematical model of an expression.
pub enum SpecExpression {
    Identifier(SpecIdentifier),
}

/// An expression node of the abstract syntax tree.
#[derive(Debug)]
pub enum Expression {
    Identifier(Identifier),
}

impl View for Expression {
    type V = SpecExpression;

    open spec fn view(&self) -> SpecExpression {
        match self {
            Expression::Identifier(i) => SpecExpression::Identifier(i@),
        }
    }
}

/// The source-like rendering of an expression.
pub open spec fn spec_expression_string(e: SpecExpression) -> Seq<char> {
    match e {
        SpecExpression::Identifier(i) => i.value,
    }
}

/// The literal of an expression's leading token.
pub open spec fn spec_expression_literal(e: SpecExpression) -> Seq<char> {
    match e {
        SpecExpression::Identifier(i) => spec_literal(i.token),
    }
}

impl Expression {
    /// The literal of this expression's leading token.
    pub fn token_literal(&self) -> (r: String)
        ensures
            r@ == spec_expression_literal(self@),
    {
        match self {
            Expression::Identifier(i) => i.token_literal(),
        }
    }

    /// Renders the expression back to source-like text.
    pub fn string(&self) -> (r: String)
        ensures
            r@ == spec_expression_string(self@),
    {
        match self {
            Expression::Identifier(i) => i.string(),
        }
    }
}

} // verus!
