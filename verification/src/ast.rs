//! The root of the abstract syntax tree: a program is an ordered sequence of
//! top-level statements, in source order.

use vstd::prelude::*;
use vstd::string::StringExecFns;
use crate::statements::{
    Statement, SpecStatement, spec_statement_string, spec_statement_literal, view_of_statements,
};

verus! {

/// The parse result: the ordered list of top-level statements.
#[derive(Debug)]
pub struct Program {
    pub statements: Vec<Statement>,
}

impl View for Program {
    type V = Seq<SpecStatement>;

    open spec fn view(&self) -> Seq<SpecStatement> {
        view_of_statements(self.statements@)
    }
}

/// The rendering of a statement sequence: the concatenation, in order, of
/// each statement's rendering, with no separator inserted.
pub open spec fn spec_statements_string(sts: Seq<SpecStatement>) -> Seq<char>
    decreases sts.len(),
{
    if sts.len() == 0 {
        Seq::empty()
    } else {
        spec_statement_string(sts[0]) + spec_statements_string(sts.drop_first())
    }
}

/// Appending one statement appends its rendering.
pub proof fn lemma_statements_string_push(sts: Seq<SpecStatement>, st: SpecStatement)
    ensures
        spec_statements_string(sts.push(st)) == spec_statements_string(sts) + spec_statement_string(
            st,
        ),
    decreases sts.len(),
{
    if sts.len() == 0 {
        assert(sts =~= Seq::<SpecStatement>::empty());
        assert(spec_statements_string(Seq::<SpecStatement>::empty()) == Seq::<char>::empty());
        assert(sts.push(st)[0] == st);
        assert(sts.push(st).drop_first() =~= Seq::<SpecStatement>::empty());
        assert(spec_statement_string(st) + Seq::<char>::empty() =~= spec_statement_string(st));
        assert(Seq::<char>::empty() + spec_statement_string(st) =~= spec_statement_string(st));
    } else {
        assert(sts.push(st)[0] == sts[0]);
        assert(sts.push(st).drop_first() =~= sts.drop_first().push(st));
        lemma_statements_string_push(sts.drop_first(), st);
        assert(spec_statement_string(sts[0]) + (spec_statements_string(sts.drop_first())
            + spec_statement_string(st)) =~= (spec_statement_string(sts[0])
            + spec_statements_string(sts.drop_first())) + spec_statement_string(st));
    }
}

impl Program {
    /// The literal of the first statement's leading token, or the empty
    /// string for an empty program.
    pub fn token_literal(&self) -> (r: String)
        ensures
            r@ == (if self@.len() > 0 {
                spec_statement_literal(self@[0])
            } else {
                Seq::<char>::empty()
            }),
    {
        if self.statements.len() > 0 {
            self.statements[0].token_literal()
        } else {
            String::new()
        }
    }

    /// Renders the whole program back to source-like text: the concatenation,
    /// in order, of each top-level statement's rendering.
    pub fn string(&self) -> (r: String)
        ensures
            r@ == spec_statements_string(self@),
    {
        let mut out = String::new();
        let mut i: usize = 0;
        while i < self.statements.len()
            invariant
                i <= self.statements.len(),
                out@ == spec_statements_string(self@.take(i as int)),
            decreases self.statements.len() - i,
        {
            let s = self.statements[i].string();
            out.append(s.as_str());
            proof {
                assert(self@.take(i as int).push(self@[i as int]) =~= self@.take(i as int + 1));
                lemma_statements_string_push(self@.take(i as int), self@[i as int]);
            }
            i = i + 1;
        }
        proof {
            assert(self@.take(self.statements@.len() as int) =~= self@);
        }
        out
    }
}

} // verus!
