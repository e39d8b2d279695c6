use monke::ast::Program;
use monke::expressions::Expression;
use monke::identifier::Identifier;
use monke::statements::{LetStatement, Statement};
use monke::token::{map_token_to_literal, Literal, Token};

#[test]
fn test_string() {
    let program = Program {
        statements: vec![Statement::Let(LetStatement {
            token: Token::Let,
            name: Identifier::new(&Token::Ident(String::from("myVar"))),
            value: Expression::Identifier(Identifier::new(&Token::Ident(String::from(
                "anotherVar",
            )))),
        })],
    };
    assert_eq!(program.string(), "let myVar = anotherVar;");
}

#[test]
fn program_token_literal_is_first_statement_literal() {
    let program = Program {
        statements: vec![Statement::Let(LetStatement {
            token: Token::Let,
            name: Identifier::new(&Token::Ident(String::from("a"))),
            value: Expression::Identifier(Identifier::new(&Token::Ident(String::from("b")))),
        })],
    };
    assert_eq!(program.token_literal(), "let");

    let empty = Program { statements: vec![] };
    assert_eq!(empty.token_literal(), "");
}

#[test]
fn token_literals_render_fixed_spellings() {
    assert_eq!(map_token_to_literal(&Token::Equal), "=");
    assert_eq!(map_token_to_literal(&Token::EqualEqual), "==");
    assert_eq!(map_token_to_literal(&Token::NotEqual), "!=");
    assert_eq!(map_token_to_literal(&Token::Plus), "+");
    assert_eq!(map_token_to_literal(&Token::Minus), "-");
    assert_eq!(map_token_to_literal(&Token::Asterisk), "*");
    assert_eq!(map_token_to_literal(&Token::Slash), "/");
    assert_eq!(map_token_to_literal(&Token::Bang), "!");
    assert_eq!(map_token_to_literal(&Token::LessThan), "<");
    assert_eq!(map_token_to_literal(&Token::GreaterThan), ">");
    assert_eq!(map_token_to_literal(&Token::Comma), ",");
    assert_eq!(map_token_to_literal(&Token::Semicolon), ";");
    assert_eq!(map_token_to_literal(&Token::LParen), "(");
    assert_eq!(map_token_to_literal(&Token::RParen), ")");
    assert_eq!(map_token_to_literal(&Token::LBrace), "{");
    assert_eq!(map_token_to_literal(&Token::RBrace), "}");
    assert_eq!(map_token_to_literal(&Token::Function), "fn");
    assert_eq!(map_token_to_literal(&Token::Let), "let");
    assert_eq!(map_token_to_literal(&Token::If), "if");
    assert_eq!(map_token_to_literal(&Token::Else), "else");
    assert_eq!(map_token_to_literal(&Token::Return), "return");
    assert_eq!(map_token_to_literal(&Token::True), "true");
    assert_eq!(map_token_to_literal(&Token::False), "false");
    assert_eq!(map_token_to_literal(&Token::Illegal), "ILLEGAL");
    assert_eq!(map_token_to_literal(&Token::Eof), "EOF");
}

#[test]
fn token_literals_render_carried_text() {
    assert_eq!(
        map_token_to_literal(&Token::Ident("five".to_string())),
        "five"
    );
    assert_eq!(map_token_to_literal(&Token::Int("42".to_string())), "42");
    assert_eq!(Token::Ident("five".to_string()).literal(), "five");
    assert_eq!(Token::Return.literal(), "return");
}

#[test]
fn statement_rendering_matches_each_kind() {
    let ret = Statement::Return(monke::statements::ReturnStatement {
        token: Token::Return,
        return_value: Expression::Identifier(Identifier::new(&Token::Ident(String::from(
            "result",
        )))),
    });
    assert_eq!(ret.string(), "return result;");

    let expr = Statement::Expression(monke::statements::ExpressionStatement::new(
        Token::Ident(String::from("foobar")),
        Expression::Identifier(Identifier::new(&Token::Ident(String::from("foobar")))),
    ));
    assert_eq!(expr.string(), "foobar");
    assert_eq!(expr.token_literal(), "foobar");
}

#[test]
fn program_rendering_concatenates_statements_in_order() {
    let program = Program {
        statements: vec![
            Statement::Let(LetStatement {
                token: Token::Let,
                name: Identifier::new(&Token::Ident(String::from("x"))),
                value: Expression::Identifier(Identifier::new(&Token::Ident(String::from("y")))),
            }),
            Statement::Return(monke::statements::ReturnStatement {
                token: Token::Return,
                return_value: Expression::Identifier(Identifier::new(&Token::Ident(
                    String::from("x"),
                ))),
            }),
        ],
    };
    assert_eq!(program.string(), "let x = y;return x;");
}

#[test]
fn identifier_value_equals_token_literal() {
    let identifier = Identifier::new(&Token::Ident(String::from("answer")));
    assert_eq!(identifier.value, "answer");
    assert_eq!(identifier.token_literal(), "answer");
    assert_eq!(identifier.string(), "answer");
}
