//! The statement model: a closed sum type over the known statement kinds —
//! `let` statements, `return` statements, and bare expression statements —
//! each able to report its leading token's literal and to render itself back
//! to source-like text.

use vstd::prelude::*;
use vstd::string::StringExecFns;
pub use crate::ast::Program;
use crate::expressions::{Expression, SpecExpression, spec_expression_string};
use crate::identifier::{Identifier, SpecIdentifier};
use crate::token::{Token, SpecToken, spec_literal, map_token_to_literal};

verus! {

/// The mathematical model of a `let` statement.
pub struct SpecLetStatement {
    pub token: SpecToken,
    pub name: SpecIdentifier,
    pub value: SpecExpression,
}

/// The mathematical model of a `return` statement.
pub struct SpecReturnStatement {
    pub token: SpecToken,
    pub return_value: SpecExpression,
}

/// The mathematical model of an expression statement.
pub struct SpecExpressionStatement {
    pub token: SpecToken,
    pub expression: SpecExpression,
}

/// The mathematical model of a statement.
pub enum SpecStatement {
    Let(SpecLetStatement),
    Return(SpecReturnStatement),
    Expression(SpecExpressionStatement),
}

/// A `let` statement: its leading token, the bound name, and the initializer
/// expression.
#[derive(Debug)]
pub struct LetStatement {
    pub token: Token,
    pub name: Identifier,
    pub value: Expression,
}

/// A `return` statement: its leading token and the returned expression.
#[derive(Debug)]
pub struct ReturnStatement {
    pub token: Token,
    pub return_value: Expression,
}

/// A bare expression appearing as a statement: its leading token and the
/// expression.
#[derive(Debug)]
pub struct ExpressionStatement {
    pub token: Token,
    pub expression: Expression,
}

/// A statement node of the abstract syntax tree.
#[derive(Debug)]
pub enum Statement {
    Let(LetStatement),
    Return(ReturnStatement),
    Expression(ExpressionStatement),
}

impl View for LetStatement {
    type V = SpecLetStatement;

    open spec fn view(&self) -> SpecLetStatement {
        SpecLetStatement { token: self.token@, name: self.name@, value: self.value@ }
    }
}

impl View for ReturnStatement {
    type V = SpecReturnStatement;

    open spec fn view(&self) -> SpecReturnStatement {
        SpecReturnStatement { token: self.token@, return_value: self.return_value@ }
    }
}

impl View for ExpressionStatement {
    type V = SpecExpressionStatement;

    open spec fn view(&self) -> SpecExpressionStatement {
        SpecExpressionStatement { token: self.token@, expression: self.expression@ }
    }
}

impl View for Statement {
    type V = SpecStatement;

    open spec fn view(&self) -> SpecStatement {
        match self {
            Statement::Let(s) => SpecStatement::Let(s@),
            Statement::Return(s) => SpecStatement::Return(s@),
            Statement::Expression(s) => SpecStatement::Expression(s@),
        }
    }
}

/// The source-like rendering of a `let` statement:
/// `<let-literal> <name> = <value>;`.
pub open spec fn spec_let_statement_string(s: SpecLetStatement) -> Seq<char> {
    spec_literal(s.token) + " "@ + s.name.value + " = "@ + spec_expression_string(s.value) + ";"@
}

/// The source-like rendering of a `return` statement:
/// `<return-literal> <value>;`.
pub open spec fn spec_return_statement_string(s: SpecReturnStatement) -> Seq<char> {
    spec_literal(s.token) + " "@ + spec_expression_string(s.return_value) + ";"@
}

/// The source-like rendering of an expression statement: the expression's own
/// rendering, with no punctuation added.
pub open spec fn spec_expression_statement_string(s: SpecExpressionStatement) -> Seq<char> {
    spec_expression_string(s.expression)
}

/// The source-like rendering of a statement.
pub open spec fn spec_statement_string(s: SpecStatement) -> Seq<char> {
    match s {
        SpecStatement::Let(x) => spec_let_statement_string(x),
        SpecStatement::Return(x) => spec_return_statement_string(x),
        SpecStatement::Expression(x) => spec_expression_statement_string(x),
    }
}

/// The literal of a statement's leading token.
pub open spec fn spec_statement_literal(s: SpecStatement) -> Seq<char> {
    match s {
        SpecStatement::Let(x) => spec_literal(x.token),
        SpecStatement::Return(x) => spec_literal(x.token),
        SpecStatement::Expression(x) => spec_literal(x.token),
    }
}

/// The view of a statement vector: its sequence of statement models.
pub open spec fn view_of_statements(sts: Seq<Statement>) -> Seq<SpecStatement> {
    sts.map_values(|s: Statement| s@)
}

impl LetStatement {
    /// The literal of this statement's leading token.
    pub fn token_literal(&self) -> (r: String)
        ensures
            r@ == spec_literal(self@.token),
    {
        map_token_to_literal(&self.token)
    }

    /// Renders the statement back to source-like text.
    pub fn string(&self) -> (r: String)
        ensures
            r@ == spec_let_statement_string(self@),
    {
        let mut out = self.token_literal();
        out.append(" ");
        out.append(self.name.string().as_str());
        out.append(" = ");
        out.append(self.value.string().as_str());
        out.append(";");
        out
    }
}

impl ReturnStatement {
    /// The literal of this statement's leading token.
    pub fn token_literal(&self) -> (r: String)
        ensures
            r@ == spec_literal(self@.token),
    {
        map_token_to_literal(&self.token)
    }

    /// Renders the statement back to source-like text.
    pub fn string(&self) -> (r: String)
        ensures
            r@ == spec_return_statement_string(self@),
    {
        let mut out = self.token_literal();
        out.append(" ");
        out.append(self.return_value.string().as_str());
        out.append(";");
        out
    }
}

impl ExpressionStatement {
    /// Builds an expression statement from its leading token and expression.
    pub fn new(token: Token, expression: Expression) -> (r: ExpressionStatement)
        ensures
            r@ == (SpecExpressionStatement { token: token@, expression: expression@ }),
    {
        ExpressionStatement { token, expression }
    }

    /// The literal of this statement's leading token.
    pub fn token_literal(&self) -> (r: String)
        ensures
            r@ == spec_literal(self@.token),
    {
        map_token_to_literal(&self.token)
    }

    /// Renders the statement back to source-like text.
    pub fn string(&self) -> (r: String)
        ensures
            r@ == spec_expression_statement_string(self@),
    {
        self.expression.string()
    }
}

impl Statement {
    /// The literal of this statement's leading token.
    pub fn token_literal(&self) -> (r: String)
        ensures
            r@ == spec_statement_literal(self@),
    {
        match self {
            Statement::Let(s) => s.token_literal(),
            Statement::Return(s) => s.token_literal(),
            Statement::Expression(s) => s.token_literal(),
        }
    }

    /// Renders the statement back to source-like text.
    pub fn string(&self) -> (r: String)
        ensures
            r@ == spec_statement_string(self@),
    {
        match self {
            Statement::Let(s) => s.string(),
            Statement::Return(s) => s.string(),
            Statement::Expression(s) => s.string(),
        }
    }
}

} // verus!
