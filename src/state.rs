use vstd::prelude::*;

use crate::error::ParserError;
use crate::lexer::Lexer;
use crate::location::Range;
use crate::tokens::Token;

verus! {

/// A number for each token variant, so that tokens can be compared by variant.
pub open spec fn variant(t: Token) -> nat {
    match t {
        Token::Number(_) => 0,
        Token::Variable(_) => 1,
        Token::Lambda => 2,
        Token::Kind => 3,
        Token::Type => 4,
        Token::Let => 5,
        Token::In => 6,
        Token::TInt => 7,
        Token::TVar(_) => 8,
        Token::Arrow => 9,
        Token::Forall => 10,
        Token::Star => 11,
        Token::Dot => 12,
        Token::Colon => 13,
        Token::Equal => 14,
        Token::LParen => 15,
        Token::RParen => 16,
        Token::LBracket => 17,
        Token::RBracket => 18,
        Token::Error => 19,
        Token::Eof => 20,
    }
}

fn variant_of(t: &Token) -> (r: u8)
    ensures
        r as nat == variant(*t),
{
    match t {
        Token::Number(_) => 0,
        Token::Variable(_) => 1,
        Token::Lambda => 2,
        Token::Kind => 3,
        Token::Type => 4,
        Token::Let => 5,
        Token::In => 6,
        Token::TInt => 7,
        Token::TVar(_) => 8,
        Token::Arrow => 9,
        Token::Forall => 10,
        Token::Star => 11,
        Token::Dot => 12,
        Token::Colon => 13,
        Token::Equal => 14,
        Token::LParen => 15,
        Token::RParen => 16,
        Token::LBracket => 17,
        Token::RBracket => 18,
        Token::Error => 19,
        Token::Eof => 20,
    }
}

/// A recursive-descent parser: the lexer, the current token and one token of lookahead,
/// and the number of tokens consumed so far.
#[derive(Debug)]
pub struct Parser {
    pub lexer: Lexer,
    pub current_token: (Token, Range),
    pub next_token: (Token, Range),
    pub after: usize,
}

impl Parser {
    pub open spec fn wf(&self) -> bool {
        &&& self.lexer.wf()
        &&& self.next_token.0 is Eof ==> self.lexer.index == self.lexer.input@.len()
        &&& self.current_token.0 is Eof ==> self.next_token.0 is Eof
    }

    /// What is left to read: characters, plus the two buffered tokens unless they are
    /// `Eof`. Every consumed token makes it smaller.
    pub open spec fn measure(&self) -> nat {
        self.lexer.left() + (if self.current_token.0 is Eof {
            0nat
        } else {
            1nat
        }) + (if self.next_token.0 is Eof {
            0nat
        } else {
            1nat
        })
    }

    /// The error for an unexpected current token.
    pub open spec fn failure(&self) -> ParserError {
        ParserError::UnexpectedToken(self.current_token.0, self.current_token.1)
    }

    pub fn init(file: &str) -> (r: Result<Parser, ParserError>)
        ensures
            r is Ok,
            r->Ok_0.wf(),
            r->Ok_0.lexer.input@ == file@,
    {
        let mut lexer = Lexer::new(file);
        let current_token = lexer.lex_token();
        let next_token = lexer.lex_token();
        Ok(Parser { lexer, current_token, next_token, after: 0 })
    }

    pub fn get(&self) -> (r: &Token)
        ensures
            *r == self.current_token.0,
    {
        &self.current_token.0
    }

    pub fn get_next(&self) -> (r: &Token)
        ensures
            *r == self.next_token.0,
    {
        &self.next_token.0
    }

    /// Whether the current token is of the variant of `expected`.
    pub fn at(&self, expected: &Token) -> (r: bool)
        ensures
            r == (variant(self.current_token.0) == variant(*expected)),
    {
        variant_of(&self.current_token.0) == variant_of(expected)
    }

    /// The outcome of an optional parse that started when `before` tokens had been
    /// consumed: its result, `None` if it failed without consuming a token, or its error.
    pub fn try_single<T>(&self, before: usize, res: Result<T, ParserError>) -> (r: Result<
        Option<T>,
        ParserError,
    >)
        ensures
            r == match res {
                Ok(v) => Ok(Some(v)),
                Err(e) => if before == self.after {
                    Ok(None)
                } else {
                    Err(e)
                },
            },
    {
        match res {
            Ok(v) => Ok(Some(v)),
            Err(e) => {
                if before == self.after {
                    Ok(None)
                } else {
                    Err(e)
                }
            },
        }
    }

    /// Moves to the next token and returns the current one.
    pub fn advance(&mut self) -> (r: Result<(Token, Range), ParserError>)
        requires
            old(self).wf(),
        ensures
            final(self).wf(),
            final(self).lexer.input == old(self).lexer.input,
            r == Ok::<(Token, Range), ParserError>(old(self).current_token),
            final(self).current_token == old(self).next_token,
            !(old(self).current_token.0 is Eof) ==> final(self).measure() < old(self).measure(),
            final(self).measure() <= old(self).measure(),
            final(self).after == if old(self).after < usize::MAX {
                old(self).after + 1
            } else {
                old(self).after as int
            },
    {
        let current = (self.current_token.0.clone(), self.current_token.1);
        self.current_token = (self.next_token.0.clone(), self.next_token.1);
        self.next_token = self.lexer.lex_token();
        if self.after < usize::MAX {
            self.after = self.after + 1;
        }
        Ok(current)
    }

    /// Consumes the current token if it is of the variant of `expected`, else fails.
    pub fn consume(&mut self, expected: &Token) -> (r: Result<(Token, Range), ParserError>)
        requires
            old(self).wf(),
        ensures
            final(self).wf(),
            final(self).lexer.input == old(self).lexer.input,
            final(self).measure() <= old(self).measure(),
            variant(old(self).current_token.0) == variant(*expected) ==> r == Ok::<
                (Token, Range),
                ParserError,
            >(old(self).current_token),
            variant(old(self).current_token.0) != variant(*expected) ==> r == Err::<
                (Token, Range),
                ParserError,
            >(old(self).failure()) && *final(self) == *old(self),
            r is Ok && !(*expected is Eof) ==> final(self).measure() < old(self).measure(),
    {
        if self.at(expected) {
            self.advance()
        } else {
            self.fail()
        }
    }

    /// Consumes a value variable and returns its name.
    pub fn consume_variable(&mut self) -> (r: Result<(String, Range), ParserError>)
        requires
            old(self).wf(),
        ensures
            final(self).wf(),
            final(self).lexer.input == old(self).lexer.input,
            final(self).measure() <= old(self).measure(),
            match old(self).current_token.0 {
                Token::Variable(name) => r == Ok::<(String, Range), ParserError>(
                    (name, old(self).current_token.1),
                ) && final(self).measure() < old(self).measure()
                    && final(self).current_token == old(self).next_token,
                _ => r == Err::<(String, Range), ParserError>(old(self).failure()) && *final(self)
                    == *old(self),
            },
    {
        match &self.current_token.0 {
            Token::Variable(name) => {
                let name = name.clone();
                let range = self.current_token.1;
                let _ = self.advance();
                Ok((name, range))
            },
            _ => self.fail(),
        }
    }

    /// Consumes a type variable and returns its name.
    pub fn consume_type_variable(&mut self) -> (r: Result<(String, Range), ParserError>)
        requires
            old(self).wf(),
        ensures
            final(self).wf(),
            final(self).lexer.input == old(self).lexer.input,
            final(self).measure() <= old(self).measure(),
            match old(self).current_token.0 {
                Token::TVar(name) => r == Ok::<(String, Range), ParserError>(
                    (name, old(self).current_token.1),
                ) && final(self).measure() < old(self).measure()
                    && final(self).current_token == old(self).next_token,
                _ => r == Err::<(String, Range), ParserError>(old(self).failure()) && *final(self)
                    == *old(self),
            },
    {
        match &self.current_token.0 {
            Token::TVar(name) => {
                let name = name.clone();
                let range = self.current_token.1;
                let _ = self.advance();
                Ok((name, range))
            },
            _ => self.fail(),
        }
    }

    /// Consumes a number literal and returns its value.
    pub fn consume_number(&mut self) -> (r: Result<(usize, Range), ParserError>)
        requires
            old(self).wf(),
        ensures
            final(self).wf(),
            final(self).lexer.input == old(self).lexer.input,
            final(self).measure() <= old(self).measure(),
            match old(self).current_token.0 {
                Token::Number(n) => r == Ok::<(usize, Range), ParserError>(
                    (n, old(self).current_token.1),
                ) && final(self).measure() < old(self).measure()
                    && final(self).current_token == old(self).next_token,
                _ => r == Err::<(usize, Range), ParserError>(old(self).failure()) && *final(self)
                    == *old(self),
            },
    {
        match &self.current_token.0 {
            Token::Number(n) => {
                let n = *n;
                let range = self.current_token.1;
                let _ = self.advance();
                Ok((n, range))
            },
            _ => self.fail(),
        }
    }

    /// The error for the current token.
    pub fn fail<T>(&self) -> (r: Result<T, ParserError>)
        ensures
            r == Err::<T, ParserError>(self.failure()),
    {
        let token = self.current_token.0.clone();
        let range = self.current_token.1;
        Err(ParserError::UnexpectedToken(token, range))
    }
}

impl Clone for ParserError {
    fn clone(&self) -> (r: ParserError)
        ensures
            r == *self,
    {
        match self {
            ParserError::UnexpectedToken(t, range) => ParserError::UnexpectedToken(t.clone(), *range),
            ParserError::UnexpectedEOF => ParserError::UnexpectedEOF,
        }
    }
}

} // verus!
