use vstd::prelude::*;

verus! {

/// The lexical units of the surface language.
#[derive(Debug, PartialEq, Eq)]
pub enum Token {
    Number(usize),
    Variable(String),
    Lambda,
    Kind,
    Type,
    Let,
    In,
    TInt,
    TVar(String),
    Arrow,
    Forall,
    Star,
    Dot,
    Colon,
    Equal,
    LParen,
    RParen,
    LBracket,
    RBracket,
    Error,
    Eof,
}

impl Clone for Token {
    fn clone(&self) -> (r: Token)
        ensures
            r == *self,
    {
        match self {
            Token::Number(n) => Token::Number(*n),
            Token::Variable(s) => Token::Variable(s.clone()),
            Token::Lambda => Token::Lambda,
            Token::Kind => Token::Kind,
            Token::Type => Token::Type,
            Token::Let => Token::Let,
            Token::In => Token::In,
            Token::TInt => Token::TInt,
            Token::TVar(s) => Token::TVar(s.clone()),
            Token::Arrow => Token::Arrow,
            Token::Forall => Token::Forall,
            Token::Star => Token::Star,
            Token::Dot => Token::Dot,
            Token::Colon => Token::Colon,
            Token::Equal => Token::Equal,
            Token::LParen => Token::LParen,
            Token::RParen => Token::RParen,
            Token::LBracket => Token::LBracket,
            Token::RBracket => Token::RBracket,
            Token::Error => Token::Error,
            Token::Eof => Token::Eof,
        }
    }
}

} // verus!
