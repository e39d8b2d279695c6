//! The parser: pulls tokens from a lexer through a two-token lookahead
//! window, builds the abstract syntax tree by recursive descent over
//! statements with a dispatch-table scheme for expressions, and accumulates
//! human-readable diagnostics on malformed input instead of aborting.
//!
//! The parser's behaviour is captured by [`spec_parse_program`] over the
//! mathematical parser state [`SpecParser`], and [`Parser::parse_program`] is
//! proved to follow it exactly; [`spec_parse_source`] composes it with the
//! lexer model to describe the whole pipeline from source text.

use vstd::prelude::*;
use vstd::string::StringExecFns;
use crate::ast::{Program, spec_statements_string};
use crate::expressions::{Expression, SpecExpression};
use crate::identifier::{Identifier, spec_identifier_of};
use crate::lexer::{Lexer, spec_tokens, spec_next_token, lemma_next_token_bounds};
use crate::statements::{
    Statement, SpecStatement, LetStatement, ReturnStatement, ExpressionStatement,
    SpecLetStatement, SpecReturnStatement, SpecExpressionStatement, view_of_statements,
};
use crate::token::{Token, TokenKind, SpecToken, fixed_token, spec_kind_name, kind_name};

verus! {

/// Operator binding strengths for precedence-climbing expression parsing,
/// weakest first. The precedence-climbing loop itself is an extension point
/// of this core: no infix handler is registered by default, so only the
/// lowest level is exercised.
#[derive(Clone, Copy, Debug)]
pub enum Precedence {
    Lowest,
    Equals,
    Lessgreater,
    Sum,
    Product,
    Prefix,
    Call,
}

/// The prefix-expression handlers a token kind can dispatch to. The sole
/// handler of this core parses the token under the cursor as an identifier.
#[derive(Clone, Copy, PartialEq, Eq, Structural, Debug)]
pub enum PrefixFn {
    Identifier,
}

/// The mathematical model of a parser: the current token, the lookahead
/// token, the tokens not yet pulled from the lexer, the diagnostics recorded
/// so far, the prefix dispatch table, and the token kinds marked for infix
/// dispatch. The infix side is an extension point of this core: no infix
/// handler exists yet, so a registration records only the operator's kind and
/// the expression parser never consults it.
pub struct SpecParser {
    pub cur: SpecToken,
    pub peek: SpecToken,
    pub rest: Seq<SpecToken>,
    pub errors: Seq<Seq<char>>,
    pub prefix: Map<TokenKind, PrefixFn>,
    pub infix: Seq<TokenKind>,
}

/// The number of tokens still in the window or the stream: end-of-input
/// markers weigh nothing, every other token weighs one.
pub open spec fn token_weight(t: SpecToken) -> nat {
    if t.kind == TokenKind::Eof {
        0
    } else {
        1
    }
}

/// The parser's termination measure: the weight of the lookahead window plus
/// the tokens not yet pulled.
pub open spec fn parser_measure(s: SpecParser) -> nat {
    s.rest.len() + token_weight(s.cur) + token_weight(s.peek)
}

/// Advancing the token window by one: the lookahead becomes current, and the
/// next token of the stream — the end-of-input marker once the stream is
/// exhausted — becomes the lookahead.
pub open spec fn spec_shift(s: SpecParser) -> SpecParser {
    SpecParser {
        cur: s.peek,
        peek: if s.rest.len() > 0 {
            s.rest[0]
        } else {
            fixed_token(TokenKind::Eof)
        },
        rest: if s.rest.len() > 0 {
            s.rest.drop_first()
        } else {
            s.rest
        },
        ..s
    }
}

/// Advancing the window never raises the measure, and strictly lowers it
/// while the current token is not the end-of-input marker.
pub proof fn lemma_shift_measure(s: SpecParser)
    ensures
        parser_measure(spec_shift(s)) <= parser_measure(s),
        s.cur.kind != TokenKind::Eof ==> parser_measure(spec_shift(s)) < parser_measure(s),
{
}

/// The diagnostic recorded when the grammar required one token kind but the
/// lookahead held another.
pub open spec fn spec_peek_error_message(expected: TokenKind, got: TokenKind) -> Seq<char> {
    "expected next token to be "@ + spec_kind_name(expected) + ", got "@ + spec_kind_name(got)
        + " instead"@
}

/// Recording a diagnostic that the lookahead was not of the expected kind.
pub open spec fn spec_push_error(s: SpecParser, expected: TokenKind) -> SpecParser {
    SpecParser { errors: s.errors.push(spec_peek_error_message(expected, s.peek.kind)), ..s }
}

/// The placeholder expression used while a statement is under construction:
/// an identifier node built from the illegal token.
pub open spec fn spec_illegal_expression() -> SpecExpression {
    SpecExpression::Identifier(spec_identifier_of(fixed_token(TokenKind::Illegal)))
}

/// Parsing one expression: look up a prefix handler for the current token's
/// kind; with no handler registered the expression yields nothing, otherwise
/// the handler builds the expression from the current token.
pub open spec fn spec_parse_expression(s: SpecParser) -> Option<SpecExpression> {
    if s.prefix.contains_key(s.cur.kind) {
        match s.prefix[s.cur.kind] {
            PrefixFn::Identifier => Option::Some(
                SpecExpression::Identifier(spec_identifier_of(s.cur)),
            ),
        }
    } else {
        Option::None
    }
}

/// Parsing a bare expression as a statement: one expression at the lowest
/// precedence, then an optional trailing semicolon is consumed.
pub open spec fn spec_parse_expression_statement(s: SpecParser) -> (Option<SpecStatement>,
    SpecParser) {
    match spec_parse_expression(s) {
        Option::None => (Option::None, s),
        Option::Some(e) => {
            let st = SpecStatement::Expression(
                SpecExpressionStatement { token: s.cur, expression: e },
            );
            if s.peek.kind == TokenKind::Semicolon {
                (Option::Some(st), spec_shift(s))
            } else {
                (Option::Some(st), s)
            }
        },
    }
}

/// Parsing a `return` statement: the node carries the `return` token and a
/// placeholder return value; the window advances once unless the current
/// token is already a semicolon.
pub open spec fn spec_parse_return_statement(s: SpecParser) -> (Option<SpecStatement>,
    SpecParser) {
    let st = SpecStatement::Return(
        SpecReturnStatement { token: s.cur, return_value: spec_illegal_expression() },
    );
    if s.cur.kind == TokenKind::Semicolon {
        (Option::Some(st), s)
    } else {
        (Option::Some(st), spec_shift(s))
    }
}

/// The statement-boundary resynchronization strategy: advance the window
/// until the current token is a semicolon, or the end of the input where no
/// semicolon remains.
pub open spec fn spec_skip_to_semicolon(s: SpecParser) -> SpecParser
    decreases parser_measure(s),
    via spec_skip_to_semicolon_decreases
{
    if s.cur.kind == TokenKind::Semicolon || s.cur.kind == TokenKind::Eof {
        s
    } else {
        spec_skip_to_semicolon(spec_shift(s))
    }
}

#[via_fn]
proof fn spec_skip_to_semicolon_decreases(s: SpecParser) {
    lemma_shift_measure(s);
}

/// Resynchronizing never raises the measure.
pub proof fn lemma_skip_to_semicolon_measure(s: SpecParser)
    ensures
        parser_measure(spec_skip_to_semicolon(s)) <= parser_measure(s),
    decreases parser_measure(s),
{
    if !(s.cur.kind == TokenKind::Semicolon || s.cur.kind == TokenKind::Eof) {
        lemma_shift_measure(s);
        lemma_skip_to_semicolon_measure(spec_shift(s));
    }
}

/// Parsing a `let` statement: the token after `let` must be an identifier
/// and the token after that must be `=` — on either mismatch a diagnostic is
/// recorded and no statement is produced — then tokens are skipped to the
/// statement boundary. The node carries the `let` token, the name built from
/// the identifier token, and a placeholder initializer.
pub open spec fn spec_parse_let_statement(s: SpecParser) -> (Option<SpecStatement>, SpecParser) {
    if s.peek.kind != TokenKind::Ident {
        (Option::None, spec_push_error(s, TokenKind::Ident))
    } else {
        let s1 = spec_shift(s);
        let name = spec_identifier_of(s1.cur);
        if s1.peek.kind != TokenKind::Equal {
            (Option::None, spec_push_error(s1, TokenKind::Equal))
        } else {
            let s2 = spec_shift(s1);
            let s3 = spec_skip_to_semicolon(s2);
            (
                Option::Some(
                    SpecStatement::Let(
                        SpecLetStatement {
                            token: s.cur,
                            name,
                            value: spec_illegal_expression(),
                        },
                    ),
                ),
                s3,
            )
        }
    }
}

/// Parsing one statement: dispatch on the current token's kind — `let` and
/// `return` have their own forms, anything else is an expression statement.
pub open spec fn spec_parse_statement(s: SpecParser) -> (Option<SpecStatement>, SpecParser) {
    if s.cur.kind == TokenKind::Let {
        spec_parse_let_statement(s)
    } else if s.cur.kind == TokenKind::Return {
        spec_parse_return_statement(s)
    } else {
        spec_parse_expression_statement(s)
    }
}

/// Parsing one statement and then advancing the window once strictly lowers
/// the measure, which is what guarantees the main parse loop terminates.
pub proof fn lemma_parse_statement_measure(s: SpecParser)
    requires
        s.cur.kind != TokenKind::Eof,
    ensures
        parser_measure(spec_shift(spec_parse_statement(s).1)) < parser_measure(s),
{
    lemma_shift_measure(s);
    if s.cur.kind == TokenKind::Let {
        if s.peek.kind != TokenKind::Ident {
            lemma_shift_measure(spec_push_error(s, TokenKind::Ident));
        } else {
            let s1 = spec_shift(s);
            if s1.peek.kind != TokenKind::Equal {
                lemma_shift_measure(spec_push_error(s1, TokenKind::Equal));
            } else {
                let s2 = spec_shift(s1);
                lemma_shift_measure(s1);
                lemma_skip_to_semicolon_measure(s2);
                lemma_shift_measure(spec_skip_to_semicolon(s2));
            }
        }
    } else if s.cur.kind == TokenKind::Return {
        if s.cur.kind != TokenKind::Semicolon {
            lemma_shift_measure(spec_shift(s));
        }
    } else {
        lemma_shift_measure(spec_shift(s));
    }
}

/// Parsing a whole program: while the current token is not the end-of-input
/// marker, parse one statement, keep it if one was produced, and advance the
/// window once regardless — so every iteration consumes at least one token
/// and parsing never fails, it only records diagnostics.
pub open spec fn spec_parse_program(s: SpecParser) -> (Seq<SpecStatement>, SpecParser)
    decreases parser_measure(s),
    via spec_parse_program_decreases
{
    if s.cur.kind == TokenKind::Eof {
        (Seq::empty(), s)
    } else {
        let (st, s1) = spec_parse_statement(s);
        let s2 = spec_shift(s1);
        let (rest, sf) = spec_parse_program(s2);
        (
            match st {
                Option::Some(x) => seq![x] + rest,
                Option::None => rest,
            },
            sf,
        )
    }
}

#[via_fn]
proof fn spec_parse_program_decreases(s: SpecParser) {
    if s.cur.kind != TokenKind::Eof {
        lemma_parse_statement_measure(s);
    }
}

/// The token at offset `i` of a stream, or the end-of-input marker past its
/// end.
pub open spec fn spec_head(toks: Seq<SpecToken>, i: int) -> SpecToken {
    if 0 <= i < toks.len() {
        toks[i]
    } else {
        fixed_token(TokenKind::Eof)
    }
}

/// A freshly constructed parser over a token stream: the window holds the
/// first two tokens (or end-of-input markers), no diagnostics are recorded,
/// and the identifier prefix handler is the only registration.
pub open spec fn spec_initial_parser(toks: Seq<SpecToken>) -> SpecParser {
    SpecParser {
        cur: spec_head(toks, 0),
        peek: spec_head(toks, 1),
        rest: if toks.len() >= 2 {
            toks.skip(2)
        } else {
            Seq::empty()
        },
        errors: Seq::empty(),
        prefix: Map::empty().insert(TokenKind::Ident, PrefixFn::Identifier),
        infix: Seq::empty(),
    }
}

/// The whole pipeline on one source text: scan it, parse the token stream
/// with a freshly constructed parser, and yield the statements and the
/// diagnostics.
pub open spec fn spec_parse_source(input: Seq<char>) -> (Seq<SpecStatement>, Seq<Seq<char>>) {
    let s0 = spec_initial_parser(spec_tokens(input, 0));
    let (sts, sf) = spec_parse_program(s0);
    (sts, sf.errors)
}

/// Parsing is deterministic: the program and the error list are functions of
/// the source text alone, so two independent parses of the same text yield
/// structurally identical programs — hence identical renderings — and
/// identical error lists.
pub proof fn lemma_parse_idempotent(
    input: Seq<char>,
    r1: (Seq<SpecStatement>, Seq<Seq<char>>),
    r2: (Seq<SpecStatement>, Seq<Seq<char>>),
)
    requires
        r1 == spec_parse_source(input),
        r2 == spec_parse_source(input),
    ensures
        r1.0 == r2.0,
        r1.1 == r2.1,
        spec_statements_string(r1.0) == spec_statements_string(r2.0),
{
}

/// The dispatch table built from a registration list: later registrations for
/// the same token kind win, as with insertion into a keyed table.
pub open spec fn spec_prefix_table(entries: Seq<(TokenKind, PrefixFn)>) -> Map<TokenKind,
    PrefixFn>
    decreases entries.len(),
{
    if entries.len() == 0 {
        Map::empty()
    } else {
        spec_prefix_table(entries.drop_last()).insert(entries.last().0, entries.last().1)
    }
}

/// The model of an optionally produced expression.
pub open spec fn option_expression_view(e: Option<Expression>) -> Option<SpecExpression> {
    match e {
        Option::Some(x) => Option::Some(x@),
        Option::None => Option::None,
    }
}

/// The model of an optionally produced statement.
pub open spec fn option_statement_view(st: Option<Statement>) -> Option<SpecStatement> {
    match st {
        Option::Some(x) => Option::Some(x@),
        Option::None => Option::None,
    }
}

/// Builds the diagnostic for a lookahead token of the wrong kind.
fn peek_error_message(expected: TokenKind, got: TokenKind) -> (r: String)
    ensures
        r@ == spec_peek_error_message(expected, got),
{
    let mut msg = "expected next token to be ".to_owned();
    msg.append(kind_name(expected));
    msg.append(", got ");
    msg.append(kind_name(got));
    msg.append(" instead");
    msg
}

/// The parser state: the lexer it exclusively owns, a two-token lookahead
/// window, the diagnostics recorded so far, and the dispatch tables for
/// prefix and infix expression parsing.
pub struct Parser {
    lexer: Lexer,
    current_token: Token,
    peek_token: Token,
    /// The diagnostics recorded so far, in the order encountered. An empty
    /// list after parsing means the input was grammatically accepted.
    pub errors: Vec<String>,
    prefix_parse_fns: Vec<(TokenKind, PrefixFn)>,
    infix_parse_fns: Vec<TokenKind>,
}

impl View for Parser {
    type V = SpecParser;

    closed spec fn view(&self) -> SpecParser {
        SpecParser {
            cur: self.current_token@,
            peek: self.peek_token@,
            rest: spec_tokens(self.lexer@.input, self.lexer@.pos),
            errors: self.errors.deep_view(),
            prefix: spec_prefix_table(self.prefix_parse_fns@),
            infix: self.infix_parse_fns@,
        }
    }
}

impl Parser {
    /// Well-formedness: the owned lexer is well-formed.
    pub closed spec fn wf(&self) -> bool {
        self.lexer.wf()
    }

    /// Creates a parser over the given lexer: the token window is advanced
    /// twice so that both the current and the lookahead token are populated,
    /// and the default prefix handler for identifier tokens is registered.
    pub fn new(lexer: Lexer) -> (parser: Parser)
        requires
            lexer.wf(),
        ensures
            parser.wf(),
            parser@ == spec_initial_parser(spec_tokens(lexer@.input, lexer@.pos)),
    {
        let ghost toks = spec_tokens(lexer@.input, lexer@.pos);
        let mut parser = Parser {
            lexer,
            current_token: Token::Illegal,
            peek_token: Token::Illegal,
            errors: Vec::new(),
            prefix_parse_fns: Vec::new(),
            infix_parse_fns: Vec::new(),
        };
        proof {
            assert(parser@.rest == toks);
            assert(parser@.errors =~= Seq::<Seq<char>>::empty());
            assert(parser@.prefix =~= Map::<TokenKind, PrefixFn>::empty());
        }
        parser.next_token();
        parser.next_token();
        parser.register_prefix(TokenKind::Ident, PrefixFn::Identifier);
        proof {
            let target = spec_initial_parser(toks);
            if toks.len() >= 2 {
                assert(toks.drop_first().drop_first() =~= toks.skip(2));
            }
            assert(Map::<TokenKind, PrefixFn>::empty().insert(
                TokenKind::Ident,
                PrefixFn::Identifier,
            ) =~= target.prefix);
            assert(parser@.rest =~= target.rest);
            assert(parser@.errors =~= target.errors);
            assert(parser@.infix =~= target.infix);
        }
        parser
    }

    /// Advances the token window by one: the lookahead becomes current and
    /// the next token is pulled from the lexer.
    fn next_token(&mut self)
        requires
            old(self).wf(),
        ensures
            final(self).wf(),
            final(self)@ == spec_shift(old(self)@),
    {
        proof {
            self.lexer.lemma_wf_bounds();
            lemma_next_token_bounds(self.lexer@.input, self.lexer@.pos);
        }
        let ghost input0 = self.lexer@.input;
        let ghost pos0 = self.lexer@.pos;
        self.current_token = self.peek_token.clone();
        let next = self.lexer.next_token();
        self.peek_token = next;
        proof {
            let (st, p) = spec_next_token(input0, pos0);
            if st.kind == TokenKind::Eof {
                assert(spec_tokens(input0, pos0) =~= Seq::<SpecToken>::empty());
                assert(spec_tokens(input0, p) =~= Seq::<SpecToken>::empty());
            } else {
                assert(spec_tokens(input0, pos0) == seq![st] + spec_tokens(input0, p));
                assert(spec_tokens(input0, pos0)[0] == st);
                assert(spec_tokens(input0, pos0).drop_first() =~= spec_tokens(input0, p));
            }
        }
    }

    /// Registers a prefix-expression handler for a token kind; a later
    /// registration for the same kind replaces the earlier one.
    pub fn register_prefix(&mut self, token: TokenKind, func: PrefixFn)
        requires
            old(self).wf(),
        ensures
            final(self).wf(),
            final(self)@ == (SpecParser { prefix: old(self)@.prefix.insert(token, func), ..old(
                self,
            )@ }),
    {
        self.prefix_parse_fns.push((token, func));
        proof {
            assert(self.prefix_parse_fns@.drop_last() =~= old(self).prefix_parse_fns@);
        }
    }

    /// Marks a token kind for infix dispatch. This is an extension point: no
    /// infix handler exists in this core, so the registration records only
    /// the operator's kind, and expression parsing does not yet consult it.
    pub fn register_infix(&mut self, token: TokenKind)
        requires
            old(self).wf(),
        ensures
            final(self).wf(),
            final(self)@ == (SpecParser { infix: old(self)@.infix.push(token), ..old(self)@ }),
    {
        self.infix_parse_fns.push(token);
    }

    /// Looks up the prefix handler registered for a token kind: the latest
    /// registration wins.
    fn lookup_prefix(&self, kind: TokenKind) -> (r: Option<PrefixFn>)
        ensures
            r == (if self@.prefix.contains_key(kind) {
                Option::Some(self@.prefix[kind])
            } else {
                Option::None::<PrefixFn>
            }),
    {
        let ghost entries = self.prefix_parse_fns@;
        let mut j = self.prefix_parse_fns.len();
        proof {
            assert(entries.take(j as int) =~= entries);
        }
        while j > 0
            invariant
                j <= self.prefix_parse_fns.len(),
                entries == self.prefix_parse_fns@,
                spec_prefix_table(entries).contains_key(kind) == spec_prefix_table(
                    entries.take(j as int),
                ).contains_key(kind),
                spec_prefix_table(entries).contains_key(kind) ==> spec_prefix_table(
                    entries.take(j as int),
                )[kind] == spec_prefix_table(entries)[kind],
            decreases j,
        {
            j = j - 1;
            proof {
                assert(entries.take(j as int + 1).drop_last() =~= entries.take(j as int));
                assert(entries.take(j as int + 1).last() == entries[j as int]);
            }
            let entry = self.prefix_parse_fns[j];
            if entry.0 == kind {
                return Option::Some(entry.1);
            }
        }
        proof {
            assert(entries.take(0) =~= Seq::<(TokenKind, PrefixFn)>::empty());
        }
        Option::None
    }

    /// The prefix handler of this core: builds an identifier expression from
    /// the current token.
    fn parse_identifier(&mut self) -> (e: Option<Expression>)
        ensures
            *final(self) == *old(self),
            option_expression_view(e) == Option::Some(
                SpecExpression::Identifier(spec_identifier_of(old(self)@.cur)),
            ),
    {
        let identifier = Identifier::new(&self.current_token);
        Option::Some(Expression::Identifier(identifier))
    }

    /// Parses one expression at the given precedence floor: looks up a prefix
    /// handler for the current token and invokes it; with no handler
    /// registered, no expression is produced. The reserved loop that would
    /// extend the left-hand expression through the infix table is an
    /// extension point not wired in this core, so the precedence floor is not
    /// yet consulted.
    #[allow(unused_variables)]
    fn parse_expression(&mut self, precedence: Precedence) -> (e: Option<Expression>)
        ensures
            *final(self) == *old(self),
            option_expression_view(e) == spec_parse_expression(old(self)@),
    {
        let kind = self.current_token.kind();
        let prefix = self.lookup_prefix(kind);
        match prefix {
            Option::None => Option::None,
            Option::Some(PrefixFn::Identifier) => self.parse_identifier(),
        }
    }

    /// Parses a bare expression as a statement, consuming an optional
    /// trailing semicolon.
    fn parse_expression_statement(&mut self) -> (st: Option<Statement>)
        requires
            old(self).wf(),
        ensures
            final(self).wf(),
            option_statement_view(st) == spec_parse_expression_statement(old(self)@).0,
            final(self)@ == spec_parse_expression_statement(old(self)@).1,
    {
        let token = self.current_token.clone();
        let expression = match self.parse_expression(Precedence::Lowest) {
            Option::Some(e) => e,
            Option::None => {
                return Option::None;
            },
        };
        let statement = ExpressionStatement::new(token, expression);
        if self.peek_token.kind() == TokenKind::Semicolon {
            self.next_token();
        }
        Option::Some(Statement::Expression(statement))
    }

    /// Parses a `let` statement: requires an identifier after `let` and `=`
    /// after the identifier, recording a diagnostic and producing no
    /// statement on either mismatch; then skips to the statement boundary.
    /// The initializer is a placeholder: wiring expression parsing into this
    /// path is an extension point of this core.
    fn parse_let_statement(&mut self) -> (st: Option<Statement>)
        requires
            old(self).wf(),
        ensures
            final(self).wf(),
            option_statement_view(st) == spec_parse_let_statement(old(self)@).0,
            final(self)@ == spec_parse_let_statement(old(self)@).1,
    {
        let let_token = self.current_token.clone();
        if self.peek_token.kind() == TokenKind::Ident {
            self.next_token();
        } else {
            self.peek_error(TokenKind::Ident);
            return Option::None;
        }
        let name = Identifier::new(&self.current_token);
        if !self.expect_peek(TokenKind::Equal) {
            return Option::None;
        }
        let ghost s2 = self@;
        loop
            invariant_except_break
                self.wf(),
                spec_skip_to_semicolon(s2) == spec_skip_to_semicolon(self@),
            ensures
                self.wf(),
                self@ == spec_skip_to_semicolon(s2),
            decreases parser_measure(self@),
        {
            if self.current_is(TokenKind::Semicolon) || self.current_is(TokenKind::Eof) {
                break;
            }
            self.next_token();
        }
        Option::Some(
            Statement::Let(
                LetStatement {
                    token: let_token,
                    name,
                    value: Expression::Identifier(Identifier::new(&Token::Illegal)),
                },
            ),
        )
    }

    /// Parses a `return` statement with a placeholder return value, advancing
    /// the window once unless the current token is already a semicolon:
    /// wiring expression parsing into this path is an extension point of this
    /// core.
    fn parse_return_statement(&mut self) -> (st: Option<Statement>)
        requires
            old(self).wf(),
        ensures
            final(self).wf(),
            option_statement_view(st) == spec_parse_return_statement(old(self)@).0,
            final(self)@ == spec_parse_return_statement(old(self)@).1,
    {
        let statement = ReturnStatement {
            token: self.current_token.clone(),
            return_value: Expression::Identifier(Identifier::new(&Token::Illegal)),
        };
        if !self.current_is(TokenKind::Semicolon) {
            self.next_token();
        }
        Option::Some(Statement::Return(statement))
    }

    /// Parses one statement, dispatching purely on the current token's kind.
    fn parse_statement(&mut self) -> (st: Option<Statement>)
        requires
            old(self).wf(),
        ensures
            final(self).wf(),
            option_statement_view(st) == spec_parse_statement(old(self)@).0,
            final(self)@ == spec_parse_statement(old(self)@).1,
    {
        match self.current_token.kind() {
            TokenKind::Let => self.parse_let_statement(),
            TokenKind::Return => self.parse_return_statement(),
            _ => self.parse_expression_statement(),
        }
    }

    /// Parses the whole program: one statement per iteration until the
    /// end-of-input token, advancing the window once per iteration regardless
    /// of whether a statement was produced. Never fails: malformed constructs
    /// are recorded in `errors` and skipped.
    pub fn parse_program(&mut self) -> (program: Program)
        requires
            old(self).wf(),
        ensures
            final(self).wf(),
            program@ == spec_parse_program(old(self)@).0,
            final(self)@ == spec_parse_program(old(self)@).1,
    {
        let mut statements: Vec<Statement> = Vec::new();
        let ghost s0 = self@;
        proof {
            assert(view_of_statements(statements@) =~= Seq::<SpecStatement>::empty());
            assert(Seq::<SpecStatement>::empty() + spec_parse_program(s0).0 =~= spec_parse_program(
                s0,
            ).0);
        }
        while self.current_token.kind() != TokenKind::Eof
            invariant
                self.wf(),
                spec_parse_program(s0).0 =~= view_of_statements(statements@) + spec_parse_program(
                    self@,
                ).0,
                spec_parse_program(s0).1 == spec_parse_program(self@).1,
            decreases parser_measure(self@),
        {
            let ghost s_before = self@;
            let ghost stmts_before = statements@;
            let statement = self.parse_statement();
            match statement {
                Option::Some(statement) => {
                    statements.push(statement);
                },
                Option::None => {},
            }
            self.next_token();
            proof {
                lemma_parse_statement_measure(s_before);
                let (sst, s1) = spec_parse_statement(s_before);
                let s2 = spec_shift(s1);
                assert(self@ == s2);
                match sst {
                    Option::Some(x) => {
                        assert(view_of_statements(statements@) =~= view_of_statements(
                            stmts_before,
                        ).push(x));
                        assert(view_of_statements(stmts_before) + (seq![x] + spec_parse_program(
                            s2,
                        ).0) =~= view_of_statements(stmts_before).push(x) + spec_parse_program(
                            s2,
                        ).0);
                    },
                    Option::None => {
                        assert(statements@ == stmts_before);
                    },
                }
            }
        }
        proof {
            assert(spec_parse_program(self@).0 =~= Seq::<SpecStatement>::empty());
            assert(view_of_statements(statements@) + Seq::<SpecStatement>::empty()
                =~= view_of_statements(statements@));
        }
        Program { statements }
    }

    /// Whether the lookahead token has the given kind.
    fn peek_is(&self, token: TokenKind) -> (b: bool)
        ensures
            b == (self@.peek.kind == token),
    {
        self.peek_token.kind() == token
    }

    /// Whether the current token has the given kind.
    fn current_is(&self, token: TokenKind) -> (b: bool)
        ensures
            b == (self@.cur.kind == token),
    {
        self.current_token.kind() == token
    }

    /// Records the diagnostic that the lookahead token was not of the
    /// expected kind.
    fn peek_error(&mut self, token: TokenKind)
        requires
            old(self).wf(),
        ensures
            final(self).wf(),
            final(self)@ == spec_push_error(old(self)@, token),
    {
        let msg = peek_error_message(token, self.peek_token.kind());
        self.errors.push(msg);
        proof {
            assert(self.errors.deep_view() =~= old(self).errors.deep_view().push(
                spec_peek_error_message(token, old(self)@.peek.kind),
            ));
        }
    }

    /// The single choke point for "the grammar requires this token next": if
    /// the lookahead matches, the window advances and the check succeeds;
    /// otherwise a diagnostic is recorded, the window stays put, and the
    /// caller decides how to recover.
    fn expect_peek(&mut self, token: TokenKind) -> (b: bool)
        requires
            old(self).wf(),
        ensures
            final(self).wf(),
            b == (old(self)@.peek.kind == token),
            final(self)@ == (if old(self)@.peek.kind == token {
                spec_shift(old(self)@)
            } else {
                spec_push_error(old(self)@, token)
            }),
    {
        if self.peek_is(token) {
            self.next_token();
            true
        } else {
            self.peek_error(token);
            false
        }
    }
}

} // verus!
