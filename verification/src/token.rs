//! The token model: the closed set of lexical categories, the kind tag used
//! for dispatch, and the literal-rendering function that maps a token back to
//! its textual form.

use vstd::prelude::*;

verus! {

/// The variant tag of a token, without any carried text.
///
/// Dispatch tables and grammar checks compare tokens by this tag alone, so
/// that e.g. "any identifier" is one dispatch key rather than one per name.
#[derive(Clone, Copy, PartialEq, Eq, Structural, Debug)]
pub enum TokenKind {
    Ident,
    Int,
    Illegal,
    Eof,
    Equal,
    Plus,
    Comma,
    Semicolon,
    LParen,
    RParen,
    LBrace,
    RBrace,
    Function,
    Let,
    Bang,
    Minus,
    Slash,
    Asterisk,
    LessThan,
    GreaterThan,
    If,
    Else,
    Return,
    True,
    False,
    EqualEqual,
    NotEqual,
}

/// The smallest classified unit of source text. Identifiers and integer
/// literals carry their text; every other variant is a fixed spelling.
#[derive(Debug, PartialEq, Eq)]
pub enum Token {
    Ident(String),
    Int(String),
    Illegal,
    Eof,
    Equal,
    Plus,
    Comma,
    Semicolon,
    LParen,
    RParen,
    LBrace,
    RBrace,
    Function,
    Let,
    Bang,
    Minus,
    Slash,
    Asterisk,
    LessThan,
    GreaterThan,
    If,
    Else,
    Return,
    True,
    False,
    EqualEqual,
    NotEqual,
}

/// The mathematical model of a token: its kind, and the carried text
/// (empty unless the kind is `Ident` or `Int`).
pub struct SpecToken {
    pub kind: TokenKind,
    pub text: Seq<char>,
}

/// The model of a token variant that carries no text.
pub open spec fn fixed_token(kind: TokenKind) -> SpecToken {
    SpecToken { kind, text: Seq::empty() }
}

impl View for Token {
    type V = SpecToken;

    open spec fn view(&self) -> SpecToken {
        match self {
            Token::Ident(s) => SpecToken { kind: TokenKind::Ident, text: s@ },
            Token::Int(s) => SpecToken { kind: TokenKind::Int, text: s@ },
            Token::Illegal => fixed_token(TokenKind::Illegal),
            Token::Eof => fixed_token(TokenKind::Eof),
            Token::Equal => fixed_token(TokenKind::Equal),
            Token::Plus => fixed_token(TokenKind::Plus),
            Token::Comma => fixed_token(TokenKind::Comma),
            Token::Semicolon => fixed_token(TokenKind::Semicolon),
            Token::LParen => fixed_token(TokenKind::LParen),
            Token::RParen => fixed_token(TokenKind::RParen),
            Token::LBrace => fixed_token(TokenKind::LBrace),
            Token::RBrace => fixed_token(TokenKind::RBrace),
            Token::Function => fixed_token(TokenKind::Function),
            Token::Let => fixed_token(TokenKind::Let),
            Token::Bang => fixed_token(TokenKind::Bang),
            Token::Minus => fixed_token(TokenKind::Minus),
            Token::Slash => fixed_token(TokenKind::Slash),
            Token::Asterisk => fixed_token(TokenKind::Asterisk),
            Token::LessThan => fixed_token(TokenKind::LessThan),
            Token::GreaterThan => fixed_token(TokenKind::GreaterThan),
            Token::If => fixed_token(TokenKind::If),
            Token::Else => fixed_token(TokenKind::Else),
            Token::Return => fixed_token(TokenKind::Return),
            Token::True => fixed_token(TokenKind::True),
            Token::False => fixed_token(TokenKind::False),
            Token::EqualEqual => fixed_token(TokenKind::EqualEqual),
            Token::NotEqual => fixed_token(TokenKind::NotEqual),
        }
    }
}

impl Clone for Token {
    fn clone(&self) -> (r: Self)
        ensures
            r@ == self@,
    {
        match self {
            Token::Ident(s) => Token::Ident(s.clone()),
            Token::Int(s) => Token::Int(s.clone()),
            Token::Illegal => Token::Illegal,
            Token::Eof => Token::Eof,
            Token::Equal => Token::Equal,
            Token::Plus => Token::Plus,
            Token::Comma => Token::Comma,
            Token::Semicolon => Token::Semicolon,
            Token::LParen => Token::LParen,
            Token::RParen => Token::RParen,
            Token::LBrace => Token::LBrace,
            Token::RBrace => Token::RBrace,
            Token::Function => Token::Function,
            Token::Let => Token::Let,
            Token::Bang => Token::Bang,
            Token::Minus => Token::Minus,
            Token::Slash => Token::Slash,
            Token::Asterisk => Token::Asterisk,
            Token::LessThan => Token::LessThan,
            Token::GreaterThan => Token::GreaterThan,
            Token::If => Token::If,
            Token::Else => Token::Else,
            Token::Return => Token::Return,
            Token::True => Token::True,
            Token::False => Token::False,
            Token::EqualEqual => Token::EqualEqual,
            Token::NotEqual => Token::NotEqual,
        }
    }
}

impl Token {
    /// The variant tag of this token, disregarding any carried text.
    pub fn kind(&self) -> (k: TokenKind)
        ensures
            k == self@.kind,
    {
        match self {
            Token::Ident(_) => TokenKind::Ident,
            Token::Int(_) => TokenKind::Int,
            Token::Illegal => TokenKind::Illegal,
            Token::Eof => TokenKind::Eof,
            Token::Equal => TokenKind::Equal,
            Token::Plus => TokenKind::Plus,
            Token::Comma => TokenKind::Comma,
            Token::Semicolon => TokenKind::Semicolon,
            Token::LParen => TokenKind::LParen,
            Token::RParen => TokenKind::RParen,
            Token::LBrace => TokenKind::LBrace,
            Token::RBrace => TokenKind::RBrace,
            Token::Function => TokenKind::Function,
            Token::Let => TokenKind::Let,
            Token::Bang => TokenKind::Bang,
            Token::Minus => TokenKind::Minus,
            Token::Slash => TokenKind::Slash,
            Token::Asterisk => TokenKind::Asterisk,
            Token::LessThan => TokenKind::LessThan,
            Token::GreaterThan => TokenKind::GreaterThan,
            Token::If => TokenKind::If,
            Token::Else => TokenKind::Else,
            Token::Return => TokenKind::Return,
            Token::True => TokenKind::True,
            Token::False => TokenKind::False,
            Token::EqualEqual => TokenKind::EqualEqual,
            Token::NotEqual => TokenKind::NotEqual,
        }
    }
}

/// The canonical textual rendering of a token: carried text for identifiers
/// and integer literals, the fixed spelling for punctuation and keywords, and
/// a diagnostic placeholder for the illegal and end-of-input markers. Total:
/// every variant has a defined rendering.
pub open spec fn spec_literal(t: SpecToken) -> Seq<char> {
    match t.kind {
        TokenKind::Ident => t.text,
        TokenKind::Int => t.text,
        TokenKind::Illegal => "ILLEGAL"@,
        TokenKind::Eof => "EOF"@,
        TokenKind::Equal => "="@,
        TokenKind::Plus => "+"@,
        TokenKind::Comma => ","@,
        TokenKind::Semicolon => ";"@,
        TokenKind::LParen => "("@,
        TokenKind::RParen => ")"@,
        TokenKind::LBrace => "{"@,
        TokenKind::RBrace => "}"@,
        TokenKind::Function => "fn"@,
        TokenKind::Let => "let"@,
        TokenKind::Bang => "!"@,
        TokenKind::Minus => "-"@,
        TokenKind::Slash => "/"@,
        TokenKind::Asterisk => "*"@,
        TokenKind::LessThan => "<"@,
        TokenKind::GreaterThan => ">"@,
        TokenKind::If => "if"@,
        TokenKind::Else => "else"@,
        TokenKind::Return => "return"@,
        TokenKind::True => "true"@,
        TokenKind::False => "false"@,
        TokenKind::EqualEqual => "=="@,
        TokenKind::NotEqual => "!="@,
    }
}

/// Maps any token value to its canonical textual rendering; pure and total,
/// no error case exists.
pub fn map_token_to_literal(token: &Token) -> (r: String)
    ensures
        r@ == spec_literal(token@),
{
    match token {
        Token::Ident(ident) => ident.clone(),
        Token::Int(text) => text.clone(),
        Token::Illegal => "ILLEGAL".to_owned(),
        Token::Eof => "EOF".to_owned(),
        Token::Equal => "=".to_owned(),
        Token::Plus => "+".to_owned(),
        Token::Comma => ",".to_owned(),
        Token::Semicolon => ";".to_owned(),
        Token::LParen => "(".to_owned(),
        Token::RParen => ")".to_owned(),
        Token::LBrace => "{".to_owned(),
        Token::RBrace => "}".to_owned(),
        Token::Function => "fn".to_owned(),
        Token::Let => "let".to_owned(),
        Token::Bang => "!".to_owned(),
        Token::Minus => "-".to_owned(),
        Token::Slash => "/".to_owned(),
        Token::Asterisk => "*".to_owned(),
        Token::LessThan => "<".to_owned(),
        Token::GreaterThan => ">".to_owned(),
        Token::If => "if".to_owned(),
        Token::Else => "else".to_owned(),
        Token::Return => "return".to_owned(),
        Token::True => "true".to_owned(),
        Token::False => "false".to_owned(),
        Token::EqualEqual => "==".to_owned(),
        Token::NotEqual => "!=".to_owned(),
    }
}

/// Anything with a canonical textual rendering derived from the token model.
pub trait Literal: View<V = SpecToken> {
    fn literal(&self) -> (r: String)
        ensures
            r@ == spec_literal(self@),
    ;
}

impl Literal for Token {
    fn literal(&self) -> (r: String)
        ensures
            r@ == spec_literal(self@),
    {
        map_token_to_literal(self)
    }
}

/// The name of a token kind, as it appears in parser diagnostics.
pub open spec fn spec_kind_name(kind: TokenKind) -> Seq<char> {
    match kind {
        TokenKind::Ident => "Ident"@,
        TokenKind::Int => "Int"@,
        TokenKind::Illegal => "Illegal"@,
        TokenKind::Eof => "Eof"@,
        TokenKind::Equal => "Equal"@,
        TokenKind::Plus => "Plus"@,
        TokenKind::Comma => "Comma"@,
        TokenKind::Semicolon => "Semicolon"@,
        TokenKind::LParen => "LParen"@,
        TokenKind::RParen => "RParen"@,
        TokenKind::LBrace => "LBrace"@,
        TokenKind::RBrace => "RBrace"@,
        TokenKind::Function => "Function"@,
        TokenKind::Let => "Let"@,
        TokenKind::Bang => "Bang"@,
        TokenKind::Minus => "Minus"@,
        TokenKind::Slash => "Slash"@,
        TokenKind::Asterisk => "Asterisk"@,
        TokenKind::LessThan => "LessThan"@,
        TokenKind::GreaterThan => "GreaterThan"@,
        TokenKind::If => "If"@,
        TokenKind::Else => "Else"@,
        TokenKind::Return => "Return"@,
        TokenKind::True => "True"@,
        TokenKind::False => "False"@,
        TokenKind::EqualEqual => "EqualEqual"@,
        TokenKind::NotEqual => "NotEqual"@,
    }
}

/// The name of a token kind, for use in parser diagnostics.
pub fn kind_name(kind: TokenKind) -> (r: &'static str)
    ensures
        r@ == spec_kind_name(kind),
{
    match kind {
        TokenKind::Ident => "Ident",
        TokenKind::Int => "Int",
        TokenKind::Illegal => "Illegal",
        TokenKind::Eof => "Eof",
        TokenKind::Equal => "Equal",
        TokenKind::Plus => "Plus",
        TokenKind::Comma => "Comma",
        TokenKind::Semicolon => "Semicolon",
        TokenKind::LParen => "LParen",
        TokenKind::RParen => "RParen",
        TokenKind::LBrace => "LBrace",
        TokenKind::RBrace => "RBrace",
        TokenKind::Function => "Function",
        TokenKind::Let => "Let",
        TokenKind::Bang => "Bang",
        TokenKind::Minus => "Minus",
        TokenKind::Slash => "Slash",
        TokenKind::Asterisk => "Asterisk",
        TokenKind::LessThan => "LessThan",
        TokenKind::GreaterThan => "GreaterThan",
        TokenKind::If => "If",
        TokenKind::Else => "Else",
        TokenKind::Return => "Return",
        TokenKind::True => "True",
        TokenKind::False => "False",
        TokenKind::EqualEqual => "EqualEqual",
        TokenKind::NotEqual => "NotEqual",
    }
}

} // verus!
