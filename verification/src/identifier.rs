//! The identifier expression node: the sole concrete expression kind of this
//! core. It owns its defining token and its textual value, which always equals
//! the token's literal.

use vstd::prelude::*;
use crate::token::{Token, SpecToken, spec_literal, map_token_to_literal};

verus! {

/// The mathematical model of an identifier node.
pub struct SpecIdentifier {
    pub token: SpecToken,
    pub value: Seq<char>,
}

/// An identifier expression: its defining token and its textual value.
#[derive(Debug, PartialEq)]
pub struct Identifier {
    pub token: Token,
    pub value: String,
}

impl View for Identifier {
    type V = SpecIdentifier;

    open spec fn view(&self) -> SpecIdentifier {
        SpecIdentifier { token: self.token@, value: self.value@ }
    }
}

/// The identifier node built from a token: it carries the token and the
/// token's literal as its value.
pub open spec fn spec_identifier_of(token: SpecToken) -> SpecIdentifier {
    SpecIdentifier { token, value: spec_literal(token) }
}

impl Identifier {
    /// Well-formedness: the node's value equals the literal of the token it
    /// was constructed from.
    pub open spec fn wf(&self) -> bool {
        self@.value == spec_literal(self@.token)
    }

    /// Builds an identifier node from its defining token; the node's value is
    /// the token's literal.
    pub fn new(token: &Token) -> (r: Identifier)
        ensures
            r@ == spec_identifier_of(token@),
            r.wf(),
    {
        Identifier { token: token.clone(), value: map_token_to_literal(token) }
    }

    /// The literal of this node's defining token.
    pub fn token_literal(&self) -> (r: String)
        ensures
            r@ == spec_literal(self@.token),
    {
        map_token_to_literal(&self.token)
    }

    /// Renders the identifier back to source-like text: its value.
    pub fn string(&self) -> (r: String)
        ensures
            r@ == self@.value,
    {
        self.value.clone()
    }
}

} // verus!
