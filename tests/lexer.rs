use system_f_omega::lexer::Lexer;
use system_f_omega::tokens::Token;

fn lex_pairs(expr: &str, tokens: Vec<Token>) -> Vec<(Token, Token)> {
    let mut lexer = Lexer::new(expr);
    let mut token_pairs = Vec::new();

    for expected_token in tokens {
        let (actual_token, _) = lexer.lex_token();
        token_pairs.push((actual_token, expected_token));
    }

    token_pairs
}

fn lex_until_error(expr: &str, tokens: Vec<Token>) -> bool {
    let mut lexer = Lexer::new(expr);

    std::iter::from_fn(|| {
        let (token, _) = lexer.lex_token();
        if token == Token::Error {
            return None;
        }
        Some(token)
    })
    .zip(tokens)
    .all(|(input, expected)| input == expected)
}

#[test]
fn test_lex_variable() {
    let received = "[Int]";
    let expected = vec![Token::LBracket, Token::TInt, Token::RBracket];

    for (fst, snd) in lex_pairs(received, expected) {
        assert_eq!(fst, snd)
    }
}

#[test]
fn test_lex_forall() {
    let received = "∀X. X -> X";
    let expected = vec![
        Token::Forall,
        Token::TVar(String::from("X")),
        Token::Dot,
        Token::TVar(String::from("X")),
        Token::Arrow,
        Token::TVar(String::from("X")),
    ];

    for (fst, snd) in lex_pairs(received, expected) {
        assert_eq!(fst, snd)
    }
}

#[test]
fn test_lex_lambda() {
    let received = "λid. id";
    let expected = vec![
        Token::Lambda,
        Token::Variable(String::from("id")),
        Token::Dot,
        Token::Variable(String::from("id")),
    ];

    for (fst, snd) in lex_pairs(received, expected) {
        assert_eq!(fst, snd)
    }
}

#[test]
fn test_lex_lambda_type() {
    let received = "λf: Int -> Int. f";
    let expected = vec![
        Token::Lambda,
        Token::Variable(String::from("f")),
        Token::Colon,
        Token::TInt,
        Token::Arrow,
        Token::TInt,
        Token::Dot,
        Token::Variable(String::from("f")),
    ];

    for (fst, snd) in lex_pairs(received, expected) {
        assert_eq!(fst, snd)
    }
}

#[test]
fn test_lex_parens() {
    let received = "(x) y";
    let expected = vec![
        Token::LParen,
        Token::Variable(String::from("x")),
        Token::RParen,
        Token::Variable(String::from("y")),
    ];

    for (fst, snd) in lex_pairs(received, expected) {
        assert_eq!(fst, snd)
    }
}

#[test]
fn test_lex_nested_parens() {
    let received = "((()()))";
    let expected = vec![
        Token::LParen,
        Token::LParen,
        Token::LParen,
        Token::RParen,
        Token::LParen,
        Token::RParen,
        Token::RParen,
        Token::RParen,
    ];

    for (fst, snd) in lex_pairs(received, expected) {
        assert_eq!(fst, snd)
    }
}

#[test]
fn mod_test_lex_variable() {
    let received = "x";
    let expected = vec![Token::Variable(String::from("x"))];

    assert!(lex_until_error(received, expected))
}

#[test]
fn mod_test_lex_lambda() {
    let received = "λid. id";
    let expected = vec![
        Token::Lambda,
        Token::Variable(String::from("id")),
        Token::Dot,
        Token::Variable(String::from("id")),
    ];

    assert!(lex_until_error(received, expected))
}

#[test]
fn mod_test_lex_parens() {
    let received = "(x) y";
    let expected = vec![
        Token::LParen,
        Token::Variable(String::from("x")),
        Token::RParen,
        Token::Variable(String::from("y")),
    ];

    assert!(lex_until_error(received, expected))
}

#[test]
fn mod_test_lex_nested_parens() {
    let received = "((()()))";
    let expected = vec![
        Token::LParen,
        Token::LParen,
        Token::LParen,
        Token::RParen,
        Token::LParen,
        Token::RParen,
        Token::RParen,
        Token::RParen,
    ];

    assert!(lex_until_error(received, expected))
}

#[test]
fn lex_kinds_and_keywords() {
    let mut lexer = Lexer::new("kind K = * -> * in type T: K = λA: *. A in let x: Int = 1 in x");
    let expected = vec![
        Token::Kind,
        Token::TVar(String::from("K")),
        Token::Equal,
        Token::Star,
        Token::Arrow,
        Token::Star,
        Token::In,
        Token::Type,
        Token::TVar(String::from("T")),
        Token::Colon,
        Token::TVar(String::from("K")),
        Token::Equal,
        Token::Lambda,
        Token::TVar(String::from("A")),
        Token::Colon,
        Token::Star,
        Token::Dot,
        Token::TVar(String::from("A")),
        Token::In,
        Token::Let,
        Token::Variable(String::from("x")),
        Token::Colon,
        Token::TInt,
        Token::Equal,
        Token::Number(1),
        Token::In,
        Token::Variable(String::from("x")),
        Token::Eof,
    ];
    for token in expected {
        assert_eq!(lexer.lex_token().0, token);
    }
}

#[test]
fn lex_spans_count_bytes() {
    let mut lexer = Lexer::new("λx 42");
    let (token, range) = lexer.lex_token();
    assert_eq!(token, Token::Lambda);
    assert_eq!((range.start.index, range.end.index), (0, 2));
    let (token, range) = lexer.lex_token();
    assert_eq!(token, Token::Variable(String::from("x")));
    assert_eq!((range.start.index, range.end.index), (2, 3));
    let (token, range) = lexer.lex_token();
    assert_eq!(token, Token::Number(42));
    assert_eq!((range.start.index, range.end.index), (4, 6));
    assert_eq!(lexer.lex_token().0, Token::Eof);
    assert_eq!(lexer.lex_token().0, Token::Eof);
}

#[test]
fn lex_number_overflow_is_error() {
    let mut lexer = Lexer::new("99999999999999999999999999 - forall");
    assert_eq!(lexer.lex_token().0, Token::Error);
    assert_eq!(lexer.lex_token().0, Token::Error);
    assert_eq!(lexer.lex_token().0, Token::Forall);
}
