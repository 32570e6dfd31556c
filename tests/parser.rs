use system_f_omega::error::ParserError;
use system_f_omega::grammar::from_string;
use system_f_omega::location::{Pos, Range};
use system_f_omega::parsetree::{Expr, Kind, KindArrow, Star, Type};
use system_f_omega::state::Parser;
use system_f_omega::symbol::Symbol;
use system_f_omega::tokens::Token;

#[test]
fn parse_application_associates_left() {
    match from_string("f x y").unwrap() {
        Expr::App(outer) => {
            match *outer.lambda {
                Expr::App(inner) => {
                    assert!(matches!(*inner.lambda, Expr::Var(_)));
                    assert!(matches!(*inner.argm, Expr::Var(_)));
                },
                other => panic!("unexpected head {:?}", other),
            }
            match *outer.argm {
                Expr::Var(v) => assert_eq!(v.value, Symbol::new(String::from("y"))),
                other => panic!("unexpected argument {:?}", other),
            }
            assert_eq!(outer.range, Range::new(Pos::new(0), Pos::new(5)));
        },
        other => panic!("unexpected expression {:?}", other),
    }
}

#[test]
fn parse_type_application_then_value_application() {
    match from_string("id [Int] 5").unwrap() {
        Expr::App(app) => {
            assert!(matches!(*app.lambda, Expr::TApp(_)));
            assert!(matches!(*app.argm, Expr::Int(_)));
        },
        other => panic!("unexpected expression {:?}", other),
    }
}

#[test]
fn parse_arrow_associates_right() {
    let mut parser = Parser::init("Int -> Int -> Int").unwrap();
    match parser.parse_type().unwrap() {
        Type::Arrow(a) => {
            assert!(matches!(*a.left, Type::TInt(_)));
            assert!(matches!(*a.right, Type::Arrow(_)));
        },
        other => panic!("unexpected type {:?}", other),
    }
}

#[test]
fn parse_kind_arrow() {
    let mut parser = Parser::init("(* -> *) -> *").unwrap();
    let k = parser.parse_kind().unwrap();
    let star = || Box::new(Kind::Star(Star {}));
    let inner = Kind::KindArrow(KindArrow { left: star(), right: star() });
    assert_eq!(k, Kind::KindArrow(KindArrow { left: Box::new(inner), right: star() }));
}

#[test]
fn parse_let_keeps_the_annotation() {
    match from_string("let x: Int = 1 in x").unwrap() {
        Expr::LetAlias(l) => assert!(matches!(*l.value, Expr::Anno(_))),
        other => panic!("unexpected expression {:?}", other),
    }
}

#[test]
fn parse_type_alias_keeps_the_kind() {
    match from_string("type T: * = Int in 1").unwrap() {
        Expr::TypeAlias(t) => assert!(matches!(t.value, Type::TyAnno(_))),
        other => panic!("unexpected expression {:?}", other),
    }
}

#[test]
fn parse_annotated_expression() {
    let mut parser = Parser::init("(λx: Int. x : Int -> Int)").unwrap();
    assert!(matches!(parser.parse_annot_expr().unwrap(), Expr::Anno(_)));
}

#[test]
fn parse_error_names_the_token() {
    match from_string("λx: Int x") {
        Err(ParserError::UnexpectedToken(token, _)) => {
            assert_eq!(token, Token::Variable(String::from("x")))
        },
        other => panic!("unexpected result {:?}", other),
    }
}

#[test]
fn parse_error_on_missing_type() {
    assert!(matches!(from_string("λx: . x"), Err(ParserError::UnexpectedToken(Token::Dot, _))));
}

#[test]
fn parser_state_moves_one_token() {
    let mut parser = Parser::init("x y").unwrap();
    assert_eq!(parser.get(), &Token::Variable(String::from("x")));
    assert_eq!(parser.get_next(), &Token::Variable(String::from("y")));
    let (token, _) = parser.advance().unwrap();
    assert_eq!(token, Token::Variable(String::from("x")));
    assert_eq!(parser.after, 1);
    assert!(parser.consume(&Token::Dot).is_err());
    assert!(parser.consume(&Token::Variable(String::new())).is_ok());
    assert_eq!(parser.get(), &Token::Eof);
    let r: Result<usize, ParserError> = parser.fail();
    assert!(matches!(r, Err(ParserError::UnexpectedToken(Token::Eof, _))));
}

#[test]
fn try_single_distinguishes_progress() {
    let parser = Parser::init("x").unwrap();
    let failed: Result<u8, ParserError> = Err(ParserError::UnexpectedEOF);
    assert!(matches!(parser.try_single(0, failed), Ok(None)));
    let failed: Result<u8, ParserError> = Err(ParserError::UnexpectedEOF);
    assert!(matches!(parser.try_single(1, failed), Err(ParserError::UnexpectedEOF)));
    assert!(matches!(parser.try_single(0, Ok(3u8)), Ok(Some(3))));
}
