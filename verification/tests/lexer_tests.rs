use monke::lexer::Lexer;
use monke::token::Token;

#[test]
fn next_token() {
    let input = "let five = 5;
        let ten = 10;
        let add = fn(x, y) {
        x + y;
        };
        let result = add(five, ten);
        !-/*5;
        5 < 10 > 5;

        if (5 < 10) {
            return true;
        } else {
            return false;
        }

        10 == 10;
        10 != 9;
        ";

    let tests = vec![
        Token::Let,
        Token::Ident("five".to_string()),
        Token::Equal,
        Token::Int("5".to_string()),
        Token::Semicolon,
        Token::Let,
        Token::Ident("ten".to_string()),
        Token::Equal,
        Token::Int("10".to_string()),
        Token::Semicolon,
        Token::Let,
        Token::Ident("add".to_string()),
        Token::Equal,
        Token::Function,
        Token::LParen,
        Token::Ident("x".to_string()),
        Token::Comma,
        Token::Ident("y".to_string()),
        Token::RParen,
        Token::LBrace,
        Token::Ident("x".to_string()),
        Token::Plus,
        Token::Ident("y".to_string()),
        Token::Semicolon,
        Token::RBrace,
        Token::Semicolon,
        Token::Let,
        Token::Ident("result".to_string()),
        Token::Equal,
        Token::Ident("add".to_string()),
        Token::LParen,
        Token::Ident("five".to_string()),
        Token::Comma,
        Token::Ident("ten".to_string()),
        Token::RParen,
        Token::Semicolon,
        Token::Bang,
        Token::Minus,
        Token::Slash,
        Token::Asterisk,
        Token::Int("5".to_string()),
        Token::Semicolon,
        Token::Int("5".to_string()),
        Token::LessThan,
        Token::Int("10".to_string()),
        Token::GreaterThan,
        Token::Int("5".to_string()),
        Token::Semicolon,
        Token::If,
        Token::LParen,
        Token::Int("5".to_string()),
        Token::LessThan,
        Token::Int("10".to_string()),
        Token::RParen,
        Token::LBrace,
        Token::Return,
        Token::True,
        Token::Semicolon,
        Token::RBrace,
        Token::Else,
        Token::LBrace,
        Token::Return,
        Token::False,
        Token::Semicolon,
        Token::RBrace,
        Token::Int("10".to_string()),
        Token::EqualEqual,
        Token::Int("10".to_string()),
        Token::Semicolon,
        Token::Int("10".to_string()),
        Token::NotEqual,
        Token::Int("9".to_string()),
        Token::Semicolon,
        Token::Eof,
    ];

    let mut lexer = Lexer::new(input.to_string());

    tests.into_iter().for_each(|expected| {
        let token = lexer.next_token();
        assert_eq!(token, expected)
    })
}

#[test]
fn single_let_token_sequence() {
    let mut lexer = Lexer::new("let five = 5;".to_string());
    let expected = vec![
        Token::Let,
        Token::Ident("five".to_string()),
        Token::Equal,
        Token::Int("5".to_string()),
        Token::Semicolon,
        Token::Eof,
    ];
    for want in expected {
        assert_eq!(lexer.next_token(), want);
    }
}

#[test]
fn comparison_operators_scan_as_single_tokens() {
    let mut lexer = Lexer::new("10 == 10; 10 != 9;".to_string());
    let tokens = lexer.all_tokens();
    assert_eq!(
        tokens,
        vec![
            Token::Int("10".to_string()),
            Token::EqualEqual,
            Token::Int("10".to_string()),
            Token::Semicolon,
            Token::Int("10".to_string()),
            Token::NotEqual,
            Token::Int("9".to_string()),
            Token::Semicolon,
        ]
    );
    assert!(tokens.contains(&Token::EqualEqual));
    assert!(tokens.contains(&Token::NotEqual));
    assert!(!tokens.contains(&Token::Equal));
    assert!(!tokens.contains(&Token::Bang));
}

#[test]
fn tokenization_is_total_and_eof_repeats() {
    // unrecognized characters become Illegal tokens and scanning still ends
    let mut lexer = Lexer::new("@ let # 5 $".to_string());
    let tokens = lexer.all_tokens();
    assert_eq!(
        tokens,
        vec![
            Token::Illegal,
            Token::Let,
            Token::Illegal,
            Token::Int("5".to_string()),
            Token::Illegal,
        ]
    );
    // once the end of the input is reached, every further call yields Eof
    assert_eq!(lexer.next_token(), Token::Eof);
    assert_eq!(lexer.next_token(), Token::Eof);
    assert_eq!(lexer.next_token(), Token::Eof);
}

#[test]
fn empty_input_has_no_tokens() {
    let mut lexer = Lexer::new(String::new());
    assert_eq!(lexer.all_tokens(), vec![]);
    assert_eq!(lexer.next_token(), Token::Eof);
}

#[test]
fn whitespace_only_input_has_no_tokens() {
    let mut lexer = Lexer::new(" \t\r\n  ".to_string());
    assert_eq!(lexer.all_tokens(), vec![]);
}

#[test]
fn keywords_need_exact_spelling() {
    let mut lexer = Lexer::new("lettuce let fnord fn _under_score".to_string());
    assert_eq!(
        lexer.all_tokens(),
        vec![
            Token::Ident("lettuce".to_string()),
            Token::Let,
            Token::Ident("fnord".to_string()),
            Token::Function,
            Token::Ident("_under_score".to_string()),
        ]
    );
}

#[test]
fn lone_equal_and_bang_at_end_of_input() {
    let mut lexer = Lexer::new("=".to_string());
    assert_eq!(lexer.all_tokens(), vec![Token::Equal]);
    let mut lexer = Lexer::new("!".to_string());
    assert_eq!(lexer.all_tokens(), vec![Token::Bang]);
    let mut lexer = Lexer::new("==".to_string());
    assert_eq!(lexer.all_tokens(), vec![Token::EqualEqual]);
    let mut lexer = Lexer::new("!=".to_string());
    assert_eq!(lexer.all_tokens(), vec![Token::NotEqual]);
}

#[test]
fn embedded_null_character_is_illegal_not_eof() {
    let mut lexer = Lexer::new("a\0b".to_string());
    assert_eq!(
        lexer.all_tokens(),
        vec![
            Token::Ident("a".to_string()),
            Token::Illegal,
            Token::Ident("b".to_string()),
        ]
    );
}
