//! The lexer: converts a character stream into a sequence of tokens, one at a
//! time, with one-character lookahead.
//!
//! The behaviour of the scanner is captured by the spec functions
//! [`spec_next_token`] (one scanning step) and [`spec_tokens`] (the whole
//! token sequence of an input), and every exec entry point is proved to follow
//! them exactly.

use vstd::prelude::*;
use vstd::string::StrSliceExecFns;
use crate::token::{Token, TokenKind, SpecToken, fixed_token};

verus! {

/// ASCII whitespace: space, horizontal tab, line feed, form feed, carriage
/// return. The scanner skips these before classifying a character.
pub open spec fn is_whitespace_char(c: char) -> bool {
    c == ' ' || c == '\t' || c == '\n' || c == '\x0C' || c == '\r'
}

/// A character that may appear in an identifier: an ASCII letter or an
/// underscore.
pub open spec fn is_letter_char(c: char) -> bool {
    ('a' <= c && c <= 'z') || ('A' <= c && c <= 'Z') || c == '_'
}

/// An ASCII decimal digit.
pub open spec fn is_digit_char(c: char) -> bool {
    '0' <= c && c <= '9'
}

fn whitespace(c: char) -> (b: bool)
    ensures
        b == is_whitespace_char(c),
{
    c == ' ' || c == '\t' || c == '\n' || c == '\x0C' || c == '\r'
}

fn letter(c: char) -> (b: bool)
    ensures
        b == is_letter_char(c),
{
    ('a' <= c && c <= 'z') || ('A' <= c && c <= 'Z') || c == '_'
}

fn digit(c: char) -> (b: bool)
    ensures
        b == is_digit_char(c),
{
    '0' <= c && c <= '9'
}

/// The first position at or after `pos` that does not hold whitespace.
pub open spec fn spec_skip_ws(input: Seq<char>, pos: nat) -> nat
    decreases input.len() - pos,
    when pos <= input.len()
{
    if pos < input.len() && is_whitespace_char(input[pos as int]) {
        spec_skip_ws(input, pos + 1)
    } else {
        pos
    }
}

/// The end of the maximal run of letter characters starting at `pos`.
pub open spec fn spec_ident_end(input: Seq<char>, pos: nat) -> nat
    decreases input.len() - pos,
    when pos <= input.len()
{
    if pos < input.len() && is_letter_char(input[pos as int]) {
        spec_ident_end(input, pos + 1)
    } else {
        pos
    }
}

/// The end of the maximal run of digit characters starting at `pos`.
pub open spec fn spec_int_end(input: Seq<char>, pos: nat) -> nat
    decreases input.len() - pos,
    when pos <= input.len()
{
    if pos < input.len() && is_digit_char(input[pos as int]) {
        spec_int_end(input, pos + 1)
    } else {
        pos
    }
}

pub proof fn lemma_skip_ws_bounds(input: Seq<char>, pos: nat)
    requires
        pos <= input.len(),
    ensures
        pos <= spec_skip_ws(input, pos) <= input.len(),
    decreases input.len() - pos,
{
    if pos < input.len() && is_whitespace_char(input[pos as int]) {
        lemma_skip_ws_bounds(input, pos + 1);
    }
}

pub proof fn lemma_ident_end_bounds(input: Seq<char>, pos: nat)
    requires
        pos <= input.len(),
    ensures
        pos <= spec_ident_end(input, pos) <= input.len(),
    decreases input.len() - pos,
{
    if pos < input.len() && is_letter_char(input[pos as int]) {
        lemma_ident_end_bounds(input, pos + 1);
    }
}

pub proof fn lemma_int_end_bounds(input: Seq<char>, pos: nat)
    requires
        pos <= input.len(),
    ensures
        pos <= spec_int_end(input, pos) <= input.len(),
    decreases input.len() - pos,
{
    if pos < input.len() && is_digit_char(input[pos as int]) {
        lemma_int_end_bounds(input, pos + 1);
    }
}

/// The token for a scanned identifier text: the matching keyword token if the
/// text spells a keyword, otherwise an identifier token carrying the text.
pub open spec fn spec_keyword_token(text: Seq<char>) -> SpecToken {
    if text == "fn"@ {
        fixed_token(TokenKind::Function)
    } else if text == "let"@ {
        fixed_token(TokenKind::Let)
    } else if text == "if"@ {
        fixed_token(TokenKind::If)
    } else if text == "else"@ {
        fixed_token(TokenKind::Else)
    } else if text == "return"@ {
        fixed_token(TokenKind::Return)
    } else if text == "true"@ {
        fixed_token(TokenKind::True)
    } else if text == "false"@ {
        fixed_token(TokenKind::False)
    } else {
        SpecToken { kind: TokenKind::Ident, text }
    }
}

/// Classifies the character at `pos` (a position past any skipped whitespace)
/// and yields the resulting token together with the cursor position after it.
/// The end-of-input token is produced exactly at the end of the input and
/// leaves the cursor in place; every other classification advances the cursor
/// past what it consumed, so scanning always makes progress.
pub open spec fn spec_token_at(input: Seq<char>, pos: nat) -> (SpecToken, nat) {
    if pos >= input.len() {
        (fixed_token(TokenKind::Eof), pos)
    } else {
        let c = input[pos as int];
        if c == '=' {
            if pos + 1 < input.len() && input[pos as int + 1] == '=' {
                (fixed_token(TokenKind::EqualEqual), pos + 2)
            } else {
                (fixed_token(TokenKind::Equal), pos + 1)
            }
        } else if c == ';' {
            (fixed_token(TokenKind::Semicolon), pos + 1)
        } else if c == '(' {
            (fixed_token(TokenKind::LParen), pos + 1)
        } else if c == ')' {
            (fixed_token(TokenKind::RParen), pos + 1)
        } else if c == ',' {
            (fixed_token(TokenKind::Comma), pos + 1)
        } else if c == '+' {
            (fixed_token(TokenKind::Plus), pos + 1)
        } else if c == '{' {
            (fixed_token(TokenKind::LBrace), pos + 1)
        } else if c == '}' {
            (fixed_token(TokenKind::RBrace), pos + 1)
        } else if c == '!' {
            if pos + 1 < input.len() && input[pos as int + 1] == '=' {
                (fixed_token(TokenKind::NotEqual), pos + 2)
            } else {
                (fixed_token(TokenKind::Bang), pos + 1)
            }
        } else if c == '-' {
            (fixed_token(TokenKind::Minus), pos + 1)
        } else if c == '/' {
            (fixed_token(TokenKind::Slash), pos + 1)
        } else if c == '*' {
            (fixed_token(TokenKind::Asterisk), pos + 1)
        } else if c == '<' {
            (fixed_token(TokenKind::LessThan), pos + 1)
        } else if c == '>' {
            (fixed_token(TokenKind::GreaterThan), pos + 1)
        } else if is_letter_char(c) {
            let end = spec_ident_end(input, pos);
            (spec_keyword_token(input.subrange(pos as int, end as int)), end)
        } else if is_digit_char(c) {
            let end = spec_int_end(input, pos);
            (SpecToken { kind: TokenKind::Int, text: input.subrange(pos as int, end as int) }, end)
        } else {
            (fixed_token(TokenKind::Illegal), pos + 1)
        }
    }
}

/// One scanning step from cursor position `pos`: skip whitespace, then
/// classify. Yields the token and the cursor position after it.
pub open spec fn spec_next_token(input: Seq<char>, pos: nat) -> (SpecToken, nat) {
    spec_token_at(input, spec_skip_ws(input, pos))
}

/// One scanning step stays within the input, strictly advances the cursor
/// unless it produced the end-of-input token, and produces the end-of-input
/// token exactly when only whitespace is left — leaving the cursor at the end
/// of the input, where every further step repeats the end-of-input token.
pub proof fn lemma_next_token_bounds(input: Seq<char>, pos: nat)
    requires
        pos <= input.len(),
    ensures
        ({
            let (t, p) = spec_next_token(input, pos);
            &&& pos <= p <= input.len()
            &&& (t.kind != TokenKind::Eof ==> p > pos)
            &&& (t.kind == TokenKind::Eof ==> p == input.len())
        }),
{
    lemma_skip_ws_bounds(input, pos);
    let q = spec_skip_ws(input, pos);
    if q < input.len() {
        let c = input[q as int];
        if is_letter_char(c) {
            lemma_ident_end_bounds(input, (q + 1) as nat);
        } else if is_digit_char(c) {
            lemma_int_end_bounds(input, (q + 1) as nat);
        }
    }
}

/// The whole token sequence of the input from cursor position `pos`,
/// excluding the final end-of-input token.
pub open spec fn spec_tokens(input: Seq<char>, pos: nat) -> Seq<SpecToken>
    decreases input.len() - pos,
    when pos <= input.len()
    via spec_tokens_decreases
{
    let (t, p) = spec_next_token(input, pos);
    if t.kind == TokenKind::Eof {
        Seq::empty()
    } else {
        seq![t] + spec_tokens(input, p)
    }
}

#[via_fn]
proof fn spec_tokens_decreases(input: Seq<char>, pos: nat) {
    lemma_next_token_bounds(input, pos);
}

/// The view of a token vector: its sequence of token models.
pub open spec fn view_of_tokens(tokens: Seq<Token>) -> Seq<SpecToken> {
    tokens.map_values(|t: Token| t@)
}

/// Tokenization is total: from any cursor position the input yields at most
/// one token per remaining input character; a scanning step that produced the
/// end-of-input token left the cursor at the end of the input, and at the end
/// of the input every further scanning step yields the end-of-input token
/// again without moving the cursor.
pub proof fn lemma_tokenization_total(input: Seq<char>, pos: nat)
    requires
        pos <= input.len(),
    ensures
        spec_tokens(input, pos).len() + pos <= input.len(),
        spec_next_token(input, pos).0.kind == TokenKind::Eof ==> spec_next_token(input, pos).1
            == input.len(),
        spec_next_token(input, input.len()) == (fixed_token(TokenKind::Eof), input.len()),
    decreases input.len() - pos,
{
    lemma_next_token_bounds(input, pos);
    let (t, p) = spec_next_token(input, pos);
    if t.kind != TokenKind::Eof {
        lemma_tokenization_total(input, p);
    }
}

/// The lexer state: the input as an indexable character sequence, a cursor,
/// the position of the next character to read, and the character under the
/// cursor (with a null sentinel standing for "past end of input").
pub struct Lexer {
    // the source text as given, kept so that scanned runs of characters can
    // be cut out as text; it always spells the same characters as `input`
    src: String,
    input: Vec<char>,
    position: usize,
    read_position: usize,
    ch: char,
}

/// The mathematical model of a lexer: the input characters and the cursor.
pub struct SpecLexer {
    pub input: Seq<char>,
    pub pos: nat,
}

impl View for Lexer {
    type V = SpecLexer;

    closed spec fn view(&self) -> SpecLexer {
        SpecLexer { input: self.input@, pos: self.position as nat }
    }
}

impl Lexer {
    /// Well-formedness: the character buffer mirrors the source string, the
    /// cursor is within the input, the next-read position is one past the
    /// cursor, and the character under the cursor is the one at the cursor
    /// position — or the null sentinel at the end of the input.
    pub closed spec fn wf(&self) -> bool {
        &&& self.src@ == self.input@
        &&& self.position <= self.input.len()
        &&& if self.position < self.input.len() {
            &&& self.read_position == self.position + 1
            &&& self.ch == self.input@[self.position as int]
        } else {
            &&& self.read_position == self.position
            &&& self.ch == '\0'
        }
    }

    /// A well-formed lexer's cursor lies within its input.
    pub proof fn lemma_wf_bounds(&self)
        requires
            self.wf(),
        ensures
            self@.pos <= self@.input.len(),
    {
    }

    /// Creates a lexer over the given source text, with the cursor on the
    /// first character.
    pub fn new(input: String) -> (lexer: Lexer)
        ensures
            lexer.wf(),
            lexer@.input == input@,
            lexer@.pos == 0,
    {
        let n = input.as_str().unicode_len();
        let mut chars: Vec<char> = Vec::new();
        let mut i: usize = 0;
        while i < n
            invariant
                i <= n,
                n == input@.len(),
                chars@ =~= input@.subrange(0, i as int),
            decreases n - i,
        {
            let c = input.as_str().get_char(i);
            chars.push(c);
            i = i + 1;
        }
        proof {
            assert(chars@ =~= input@);
        }
        let mut lexer = Lexer {
            src: input,
            input: chars,
            position: 0,
            read_position: 0,
            ch: '\0',
        };
        lexer.read_char();
        lexer
    }

    /// Moves the cursor to the next-read position and loads the character
    /// there, or the null sentinel at the end of the input.
    fn read_char(&mut self)
        requires
            old(self).src@ == old(self).input@,
            old(self).read_position <= old(self).input.len(),
        ensures
            final(self).wf(),
            final(self).input@ == old(self).input@,
            final(self).src@ == old(self).src@,
            final(self).position == old(self).read_position,
    {
        if self.read_position < self.input.len() {
            self.ch = self.input[self.read_position];
            self.position = self.read_position;
            self.read_position = self.read_position + 1;
        } else {
            self.ch = '\0';
            self.position = self.read_position;
        }
    }

    /// The character after the one under the cursor, or the null sentinel if
    /// there is none.
    fn peek_char(&self) -> (c: char)
        requires
            self.wf(),
        ensures
            c == (if self@.pos + 1 < self@.input.len() {
                self@.input[self@.pos as int + 1]
            } else {
                '\0'
            }),
    {
        if self.read_position < self.input.len() {
            self.input[self.read_position]
        } else {
            '\0'
        }
    }

    /// Consumes the maximal run of letter characters under the cursor and
    /// returns it as text.
    fn read_identifier(&mut self) -> (r: String)
        requires
            old(self).wf(),
            old(self)@.pos < old(self)@.input.len(),
            is_letter_char(old(self)@.input[old(self)@.pos as int]),
        ensures
            final(self).wf(),
            final(self)@.input == old(self)@.input,
            final(self)@.pos == spec_ident_end(old(self)@.input, old(self)@.pos),
            r@ == old(self)@.input.subrange(
                old(self)@.pos as int,
                spec_ident_end(old(self)@.input, old(self)@.pos) as int,
            ),
    {
        let ghost input0 = self@.input;
        let ghost pos0 = self@.pos;
        let starting_position = self.position;
        while letter(self.ch)
            invariant
                self.wf(),
                self@.input == input0,
                starting_position as nat == pos0,
                pos0 <= self@.pos <= input0.len(),
                spec_ident_end(input0, pos0) == spec_ident_end(input0, self@.pos),
            decreases input0.len() - self@.pos,
        {
            self.read_char();
        }
        self.src.as_str().substring_char(starting_position, self.position).to_owned()
    }

    /// Consumes the maximal run of digit characters under the cursor and
    /// returns it as text.
    fn read_digit(&mut self) -> (r: String)
        requires
            old(self).wf(),
            old(self)@.pos < old(self)@.input.len(),
            is_digit_char(old(self)@.input[old(self)@.pos as int]),
        ensures
            final(self).wf(),
            final(self)@.input == old(self)@.input,
            final(self)@.pos == spec_int_end(old(self)@.input, old(self)@.pos),
            r@ == old(self)@.input.subrange(
                old(self)@.pos as int,
                spec_int_end(old(self)@.input, old(self)@.pos) as int,
            ),
    {
        let ghost input0 = self@.input;
        let ghost pos0 = self@.pos;
        let starting_position = self.position;
        while digit(self.ch)
            invariant
                self.wf(),
                self@.input == input0,
                starting_position as nat == pos0,
                pos0 <= self@.pos <= input0.len(),
                spec_int_end(input0, pos0) == spec_int_end(input0, self@.pos),
            decreases input0.len() - self@.pos,
        {
            self.read_char();
        }
        self.src.as_str().substring_char(starting_position, self.position).to_owned()
    }

    /// Moves the cursor past any whitespace under it.
    fn skip_whitespace(&mut self)
        requires
            old(self).wf(),
        ensures
            final(self).wf(),
            final(self)@.input == old(self)@.input,
            final(self)@.pos == spec_skip_ws(old(self)@.input, old(self)@.pos),
    {
        let ghost input0 = self@.input;
        let ghost pos0 = self@.pos;
        while whitespace(self.ch)
            invariant
                self.wf(),
                self@.input == input0,
                self@.pos <= input0.len(),
                spec_skip_ws(input0, pos0) == spec_skip_ws(input0, self@.pos),
            decreases input0.len() - self@.pos,
        {
            self.read_char();
        }
    }

    /// Turns scanned identifier text into the matching keyword token, or an
    /// identifier token carrying the text.
    fn keyword_or_ident(ident: String) -> (token: Token)
        ensures
            token@ == spec_keyword_token(ident@),
    {
        if ident == "fn".to_owned() {
            Token::Function
        } else if ident == "let".to_owned() {
            Token::Let
        } else if ident == "if".to_owned() {
            Token::If
        } else if ident == "else".to_owned() {
            Token::Else
        } else if ident == "return".to_owned() {
            Token::Return
        } else if ident == "true".to_owned() {
            Token::True
        } else if ident == "false".to_owned() {
            Token::False
        } else {
            Token::Ident(ident)
        }
    }

    /// Produces the next token: skips whitespace, classifies the character
    /// under the cursor, and advances the cursor past everything consumed.
    /// Follows [`spec_next_token`] exactly.
    pub fn next_token(&mut self) -> (token: Token)
        requires
            old(self).wf(),
        ensures
            final(self).wf(),
            final(self)@.input == old(self)@.input,
            token@ == spec_next_token(old(self)@.input, old(self)@.pos).0,
            final(self)@.pos == spec_next_token(old(self)@.input, old(self)@.pos).1,
    {
        self.skip_whitespace();
        let token: Token;
        match self.ch {
            '=' => {
                if self.peek_char() == '=' {
                    self.read_char();
                    token = Token::EqualEqual;
                } else {
                    token = Token::Equal;
                }
            },
            ';' => {
                token = Token::Semicolon;
            },
            '(' => {
                token = Token::LParen;
            },
            ')' => {
                token = Token::RParen;
            },
            ',' => {
                token = Token::Comma;
            },
            '+' => {
                token = Token::Plus;
            },
            '{' => {
                token = Token::LBrace;
            },
            '}' => {
                token = Token::RBrace;
            },
            '!' => {
                if self.peek_char() == '=' {
                    self.read_char();
                    token = Token::NotEqual;
                } else {
                    token = Token::Bang;
                }
            },
            '-' => {
                token = Token::Minus;
            },
            '/' => {
                token = Token::Slash;
            },
            '*' => {
                token = Token::Asterisk;
            },
            '<' => {
                token = Token::LessThan;
            },
            '>' => {
                token = Token::GreaterThan;
            },
            '\0' => {
                if self.position < self.input.len() {
                    // a null character inside the input is not the end
                    // sentinel: it is merely unrecognized
                    token = Token::Illegal;
                } else {
                    token = Token::Eof;
                }
            },
            _ => {
                if letter(self.ch) {
                    let ident = self.read_identifier();
                    return Self::keyword_or_ident(ident);
                } else if digit(self.ch) {
                    let d = self.read_digit();
                    return Token::Int(d);
                } else {
                    token = Token::Illegal;
                }
            },
        }
        self.read_char();
        token
    }

    /// Collects tokens by repeated scanning, up to but excluding the
    /// end-of-input token, and leaves the cursor at the end of the input —
    /// where any further scan yields the end-of-input token again. At most
    /// one token is produced per input character.
    pub fn all_tokens(&mut self) -> (tokens: Vec<Token>)
        requires
            old(self).wf(),
        ensures
            final(self).wf(),
            final(self)@.input == old(self)@.input,
            final(self)@.pos == old(self)@.input.len(),
            view_of_tokens(tokens@) == spec_tokens(old(self)@.input, old(self)@.pos),
            tokens@.len() + old(self)@.pos <= old(self)@.input.len(),
    {
        proof {
            lemma_tokenization_total(self@.input, self@.pos);
        }
        let mut tokens: Vec<Token> = Vec::new();
        let ghost input0 = self@.input;
        let ghost pos0 = self@.pos;
        loop
            invariant_except_break
                self.wf(),
                self@.input == input0,
                self@.pos <= input0.len(),
                spec_tokens(input0, pos0) =~= view_of_tokens(tokens@) + spec_tokens(
                    input0,
                    self@.pos,
                ),
            ensures
                self.wf(),
                self@.input == input0,
                self@.pos == input0.len(),
                view_of_tokens(tokens@) == spec_tokens(input0, pos0),
            decreases input0.len() - self@.pos,
        {
            let ghost pos_before = self@.pos;
            let token = self.next_token();
            proof {
                lemma_next_token_bounds(input0, pos_before);
            }
            if token.kind() == TokenKind::Eof {
                proof {
                    assert(spec_tokens(input0, pos_before) =~= Seq::<SpecToken>::empty());
                    assert(view_of_tokens(tokens@) + Seq::<SpecToken>::empty() =~= view_of_tokens(
                        tokens@,
                    ));
                }
                break;
            }
            proof {
                assert(spec_tokens(input0, pos_before) =~= seq![token@] + spec_tokens(
                    input0,
                    self@.pos,
                ));
            }
            tokens.push(token);
            proof {
                assert(view_of_tokens(tokens@) =~= view_of_tokens(tokens@.drop_last()).push(
                    token@,
                ));
            }
        }
        tokens
    }
}

} // verus!
