use monke::expressions::Expression;
use monke::lexer::Lexer;
use monke::parser::Parser;
use monke::statements::Statement;

fn check_parser_errors(p: &Parser) {
    let errors = &p.errors;

    if !errors.is_empty() {
        panic!("Parser errors: {:?}", errors);
    }
}

fn test_let_statement(statement: &Statement, name: &str) -> bool {
    assert_eq!(statement.token_literal(), "let");

    if let Statement::Let(let_statement) = statement {
        assert_eq!(let_statement.name.value, name);

        assert_eq!(let_statement.name.token_literal(), name);
    } else {
        panic!("statement is not a LetStatement");
    }

    return true;
}

#[test]
fn let_statements() {
    let input = "
        let x = 5;
        let y = 420;
        let z = 69;
       ";

    let lexer = Lexer::new(input.to_owned());
    let mut parser = Parser::new(lexer);

    let program = parser.parse_program();

    let tests = vec!["x", "y", "z"];

    for (i, test) in tests.iter().enumerate() {
        let statement = &program.statements[i];
        if !test_let_statement(statement, test) {
            return;
        }
    }
}

#[test]
fn let_statements_yield_exactly_three() {
    let input = "let x = 5; let y = 420; let z = 69;";

    let lexer = Lexer::new(input.to_owned());
    let mut parser = Parser::new(lexer);

    let program = parser.parse_program();

    check_parser_errors(&parser);
    assert_eq!(program.statements.len(), 3);
    let names = vec!["x", "y", "z"];
    for (statement, name) in program.statements.iter().zip(names) {
        assert_eq!(statement.token_literal(), "let");
        match statement {
            Statement::Let(let_statement) => assert_eq!(let_statement.name.value, name),
            _ => panic!("statement is not a LetStatement"),
        }
    }
}

#[test]
fn return_statements() {
    let input = "
        return 5;
        return 420;
        return add(5);
        ";

    let lexer = Lexer::new(input.to_owned());
    let mut parser = Parser::new(lexer);

    let program = parser.parse_program();

    assert_eq!(program.statements.len(), 3);

    for statement in program.statements {
        assert_eq!(statement.token_literal(), "return");
    }
}

#[test]
fn test_identifier_expression() {
    let input = "foobar;";
    let l = Lexer::new(input.to_owned());
    let mut p = Parser::new(l);

    let program = p.parse_program();

    check_parser_errors(&p);

    assert_eq!(
        program.statements.len(),
        1,
        "program has not enough statements"
    );

    let stmt = &program.statements[0];
    if let Statement::Expression(expression_statement) = stmt {
        let Expression::Identifier(identifier) = &expression_statement.expression;
        assert_eq!(identifier.value, "foobar");
        println!("Identifier: {:?}", identifier);
    } else {
        panic!("Statement is not ExpressionStatement");
    }
}

#[test]
fn identifier_expression_without_semicolon() {
    let l = Lexer::new("foobar".to_owned());
    let mut p = Parser::new(l);
    let program = p.parse_program();
    check_parser_errors(&p);
    assert_eq!(program.statements.len(), 1);
    assert_eq!(program.string(), "foobar");
}

#[test]
fn let_missing_equal_records_one_error() {
    let input = "let x 5;";
    let lexer = Lexer::new(input.to_owned());
    let mut parser = Parser::new(lexer);

    let program = parser.parse_program();

    assert_eq!(program.statements.len(), 0);
    assert_eq!(parser.errors.len(), 1);
    assert_eq!(
        parser.errors[0],
        "expected next token to be Equal, got Int instead"
    );
}

#[test]
fn let_missing_name_records_one_error() {
    let input = "let = 5;";
    let lexer = Lexer::new(input.to_owned());
    let mut parser = Parser::new(lexer);

    let program = parser.parse_program();

    assert_eq!(program.statements.len(), 0);
    assert_eq!(parser.errors.len(), 1);
    assert_eq!(
        parser.errors[0],
        "expected next token to be Ident, got Equal instead"
    );
}

#[test]
fn parsing_twice_yields_identical_results() {
    let input = "let x = 5; foobar; return 5; let y 6;";

    let lexer1 = Lexer::new(input.to_owned());
    let mut parser1 = Parser::new(lexer1);
    let program1 = parser1.parse_program();

    let lexer2 = Lexer::new(input.to_owned());
    let mut parser2 = Parser::new(lexer2);
    let program2 = parser2.parse_program();

    assert_eq!(program1.string(), program2.string());
    assert_eq!(program1.statements.len(), program2.statements.len());
    assert_eq!(parser1.errors, parser2.errors);
}

#[test]
fn empty_input_parses_to_empty_program() {
    let lexer = Lexer::new(String::new());
    let mut parser = Parser::new(lexer);
    let program = parser.parse_program();
    assert_eq!(program.statements.len(), 0);
    assert!(parser.errors.is_empty());
    assert_eq!(program.token_literal(), "");
    assert_eq!(program.string(), "");
}

#[test]
fn unsupported_expression_forms_yield_no_statement() {
    // no prefix handler is registered for integer literals, so a bare
    // integer expression statement produces no node and no lexical error
    let lexer = Lexer::new("5;".to_owned());
    let mut parser = Parser::new(lexer);
    let program = parser.parse_program();
    assert_eq!(program.statements.len(), 0);
    assert!(parser.errors.is_empty());
}

#[test]
fn return_keyword_alone_still_parses() {
    let lexer = Lexer::new("return;".to_owned());
    let mut parser = Parser::new(lexer);
    let program = parser.parse_program();
    check_parser_errors(&parser);
    assert_eq!(program.statements.len(), 1);
    assert_eq!(program.statements[0].token_literal(), "return");
}
