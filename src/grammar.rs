use vstd::prelude::*;

use crate::error::ParserError;
use crate::location::Range;
use crate::parsetree::{
    Abs, Anno, App, Arrow, Expr, Forall, Int, Kind, KindAlias, KindArrow, KindVar,
    LetAlias, Star, TAbs, TApp, TInt, TVar, TyAbs, TyAnno, TyApp, Type, TypeAlias, Var,
};
use crate::state::Parser;
use crate::symbol::Symbol;
use crate::tokens::Token;

verus! {

/// A parsing step: the state stays well formed and nothing already consumed comes back.
pub open spec fn step(before: Parser, after: Parser) -> bool {
    after.wf() && after.measure() <= before.measure() && after.lexer.input == before.lexer.input
}

/// A parsing step that consumed at least one token.
pub open spec fn progress(before: Parser, after: Parser) -> bool {
    step(before, after) && after.measure() < before.measure()
}

/// The expression that a lone variable or number token stands for.
pub open spec fn atom_of(t: (Token, Range)) -> Option<Expr> {
    match t.0 {
        Token::Variable(name) => Some(Expr::Var(Var { value: Symbol { id: 0, name }, range: t.1 })),
        Token::Number(value) => Some(Expr::Int(Int { value, range: t.1 })),
        _ => None,
    }
}

/// Tokens that can begin an atom.
pub open spec fn starts_atom(t: Token) -> bool {
    t is LParen || t is Variable || t is Number
}

/// Tokens that can begin a simple type.
pub open spec fn starts_simple_type(t: Token) -> bool {
    t is LParen || t is TInt || t is TVar || t is Forall || t is Lambda
}

/// A variable or number token that nothing extends into an application: the next token
/// begins neither an argument nor a type argument.
pub open spec fn lone_atom(p: Parser) -> bool {
    atom_of(p.current_token) is Some && !starts_atom(p.next_token.0) && !(p.next_token.0 is LBracket)
}

/// The type that a lone `Int` or type variable token stands for.
pub open spec fn simple_type_of(t: Token) -> Option<Type> {
    match t {
        Token::TInt => Some(Type::TInt(TInt {  })),
        Token::TVar(name) => Some(Type::TVar(TVar { value: Symbol { id: 0, name } })),
        _ => None,
    }
}

/// The kind that a lone `*` or kind name token stands for.
pub open spec fn simple_kind_of(t: Token) -> Option<Kind> {
    match t {
        Token::Star => Some(Kind::Star(Star {  })),
        Token::TVar(name) => Some(Kind::KindVar(KindVar { value: Symbol { id: 0, name } })),
        _ => None,
    }
}

/// An `Int` or type variable token that no argument follows.
pub open spec fn lone_simple_type(p: Parser) -> bool {
    simple_type_of(p.current_token.0) is Some && !starts_simple_type(p.next_token.0)
}

impl Parser {
    /// `x`: a value variable.
    pub fn parse_variable_expr(&mut self) -> (r: Result<Expr, ParserError>)
        requires
            old(self).wf(),
        ensures
            step(*old(self), *final(self)),
            r is Ok ==> final(self).current_token == old(self).next_token,
            r is Ok ==> progress(*old(self), *final(self)),
            match old(self).current_token.0 {
                Token::Variable(name) => r == Ok::<Expr, ParserError>(
                    Expr::Var(Var { value: Symbol { id: 0, name }, range: old(self).current_token.1 }),
                ),
                _ => r == Err::<Expr, ParserError>(old(self).failure()),
            },
    {
        let (token, range) = match self.consume_variable() {
            Err(e) => return Err(e),
            Ok(v) => v,
        };
        let symbol = Symbol::new(token);
        Ok(Expr::Var(Var { value: symbol, range }))
    }

    /// `n`: an integer literal.
    pub fn parse_number_expr(&mut self) -> (r: Result<Expr, ParserError>)
        requires
            old(self).wf(),
        ensures
            step(*old(self), *final(self)),
            r is Ok ==> final(self).current_token == old(self).next_token,
            r is Ok ==> progress(*old(self), *final(self)),
            match old(self).current_token.0 {
                Token::Number(value) => r == Ok::<Expr, ParserError>(
                    Expr::Int(Int { value, range: old(self).current_token.1 }),
                ),
                _ => r == Err::<Expr, ParserError>(old(self).failure()),
            },
    {
        let (value, range) = match self.consume_number() {
            Err(e) => return Err(e),
            Ok(v) => v,
        };
        Ok(Expr::Int(Int { value, range }))
    }

    /// An atom: a parenthesized expression, a variable or a number.
    pub fn parse_atom(&mut self) -> (r: Result<Expr, ParserError>)
        requires
            old(self).wf(),
        ensures
            step(*old(self), *final(self)),
            r is Ok ==> progress(*old(self), *final(self)),
            !(old(self).current_token.0 is LParen || old(self).current_token.0 is Variable
                || old(self).current_token.0 is Number) ==> r == Err::<Expr, ParserError>(
                old(self).failure(),
            ) && *final(self) == *old(self),
            atom_of(old(self).current_token) is Some ==> r == Ok::<Expr, ParserError>(
                atom_of(old(self).current_token)->Some_0,
            ) && final(self).current_token == old(self).next_token,
        decreases old(self).measure(), 5nat,
    {
        if self.at(&Token::LParen) {
            self.parse_parens_expr()
        } else if self.at(&Token::Variable(String::new())) {
            self.parse_variable_expr()
        } else if self.at(&Token::Number(0)) {
            self.parse_number_expr()
        } else {
            self.fail()
        }
    }

    /// The rest of `λx: T. body` after the `λ`, whose span starts at `range`.
    pub fn parse_abs_expr(&mut self, range: Range) -> (r: Result<Expr, ParserError>)
        requires
            old(self).wf(),
        ensures
            step(*old(self), *final(self)),
            r is Ok ==> progress(*old(self), *final(self)),
            r is Ok ==> r->Ok_0 is Abs,
        decreases old(self).measure(), 6nat,
    {
        let (param, _) = match self.consume_variable() {
            Err(e) => return Err(e),
            Ok(v) => v,
        };
        let symbol = Symbol::new(param);
        if let Err(e) = self.consume(&Token::Colon) {
            return Err(e);
        }
        let param_type = match self.parse_type() {
            Err(e) => return Err(e),
            Ok(t) => t,
        };
        if let Err(e) = self.consume(&Token::Dot) {
            return Err(e);
        }
        let body = match self.parse_expr() {
            Err(e) => return Err(e),
            Ok(b) => b,
        };
        let endr = body.range();
        Ok(Expr::Abs(Abs { param: symbol, param_ty: param_type, body: Box::new(body), range: range.mix(endr) }))
    }

    /// The rest of `λA: K. body` after the `λ`, whose span starts at `range`.
    pub fn parse_abs_type(&mut self, range: Range) -> (r: Result<Expr, ParserError>)
        requires
            old(self).wf(),
        ensures
            step(*old(self), *final(self)),
            r is Ok ==> progress(*old(self), *final(self)),
            r is Ok ==> r->Ok_0 is TAbs,
        decreases old(self).measure(), 6nat,
    {
        let (param, _) = match self.consume_type_variable() {
            Err(e) => return Err(e),
            Ok(v) => v,
        };
        let symbol = Symbol::new(param);
        if let Err(e) = self.consume(&Token::Colon) {
            return Err(e);
        }
        let param_type = match self.parse_kind() {
            Err(e) => return Err(e),
            Ok(k) => k,
        };
        if let Err(e) = self.consume(&Token::Dot) {
            return Err(e);
        }
        let body = match self.parse_expr() {
            Err(e) => return Err(e),
            Ok(b) => b,
        };
        let endr = body.range();
        Ok(Expr::TAbs(TAbs { param: symbol, param_ty: param_type, body: Box::new(body), range: range.mix(endr) }))
    }

    /// `λx: T. body` or `λA: K. body`, told apart by the case of the parameter.
    pub fn parse_abs(&mut self) -> (r: Result<Expr, ParserError>)
        requires
            old(self).wf(),
        ensures
            step(*old(self), *final(self)),
            r is Ok ==> progress(*old(self), *final(self)),
            r is Ok ==> (r->Ok_0 is Abs || r->Ok_0 is TAbs),
            !(old(self).current_token.0 is Lambda) ==> r == Err::<Expr, ParserError>(old(self).failure()),
        decreases old(self).measure(), 7nat,
    {
        let (_, range) = match self.consume(&Token::Lambda) {
            Err(e) => return Err(e),
            Ok(v) => v,
        };
        if self.at(&Token::Variable(String::new())) {
            self.parse_abs_expr(range)
        } else {
            self.parse_abs_type(range)
        }
    }

    /// `[T]`: a type argument, with the span of the brackets.
    pub fn parse_type_arg(&mut self) -> (r: Result<(Range, Type), ParserError>)
        requires
            old(self).wf(),
        ensures
            step(*old(self), *final(self)),
            r is Ok ==> progress(*old(self), *final(self)),
            !(old(self).current_token.0 is LBracket) ==> r == Err::<(Range, Type), ParserError>(
                old(self).failure(),
            ) && *final(self) == *old(self),
    {
        let (_, range_l) = match self.consume(&Token::LBracket) {
            Err(e) => return Err(e),
            Ok(v) => v,
        };
        let argument_ty = match self.parse_type() {
            Err(e) => return Err(e),
            Ok(t) => t,
        };
        let (_, range_r) = match self.consume(&Token::RBracket) {
            Err(e) => return Err(e),
            Ok(v) => v,
        };
        Ok((range_l.mix(range_r), argument_ty))
    }

    /// An atom followed by type arguments `[T]`, then by argument atoms; applications
    /// associate to the left.
    pub fn parse_call(&mut self) -> (r: Result<Expr, ParserError>)
        requires
            old(self).wf(),
        ensures
            step(*old(self), *final(self)),
            r is Ok ==> progress(*old(self), *final(self)),
            lone_atom(*old(self)) ==> r == Ok::<Expr, ParserError>(atom_of(old(self).current_token)->Some_0),
        decreases old(self).measure(), 6nat,
    {
        let mut func = match self.parse_atom() {
            Err(e) => return Err(e),
            Ok(f) => f,
        };
        while self.at(&Token::LBracket)
            invariant
                progress(*old(self), *self),
                lone_atom(*old(self)) ==> func == atom_of(old(self).current_token)->Some_0
                    && self.current_token == old(self).next_token,
            decreases self.measure(),
        {
            let (loc, arg) = match self.parse_type_arg() {
                Err(e) => return Err(e),
                Ok(a) => a,
            };
            let range = func.range().mix(loc);
            func = Expr::TApp(TApp { lambda: Box::new(func), argm: arg, range });
        }
        loop
            invariant
                progress(*old(self), *self),
                lone_atom(*old(self)) ==> func == atom_of(old(self).current_token)->Some_0
                    && self.current_token == old(self).next_token,
            decreases self.measure(),
        {
            let before = self.after;
            let attempt = self.parse_atom();
            match self.try_single(before, attempt) {
                Err(e) => return Err(e),
                Ok(None) => break,
                Ok(Some(arg)) => {
                    let range = func.range().mix(arg.range());
                    func = Expr::App(App { lambda: Box::new(func), argm: Box::new(arg), range });
                },
            }
        }
        Ok(func)
    }

    /// An application chain.
    pub fn parse_application(&mut self) -> (r: Result<Expr, ParserError>)
        requires
            old(self).wf(),
        ensures
            step(*old(self), *final(self)),
            r is Ok ==> progress(*old(self), *final(self)),
            lone_atom(*old(self)) ==> r == Ok::<Expr, ParserError>(atom_of(old(self).current_token)->Some_0),
        decreases old(self).measure(), 7nat,
    {
        self.parse_call()
    }

    /// `(e)`.
    pub fn parse_parens_expr(&mut self) -> (r: Result<Expr, ParserError>)
        requires
            old(self).wf(),
        ensures
            step(*old(self), *final(self)),
            r is Ok ==> progress(*old(self), *final(self)),
            !(old(self).current_token.0 is LParen) ==> r == Err::<Expr, ParserError>(old(self).failure()),
        decreases old(self).measure(), 4nat,
    {
        if let Err(e) = self.consume(&Token::LParen) {
            return Err(e);
        }
        let expr = match self.parse_expr() {
            Err(e) => return Err(e),
            Ok(x) => x,
        };
        if let Err(e) = self.consume(&Token::RParen) {
            return Err(e);
        }
        Ok(expr)
    }

    /// `let x: T = value in body`; the value is kept annotated with `T`.
    pub fn parse_let_alias(&mut self) -> (r: Result<Expr, ParserError>)
        requires
            old(self).wf(),
        ensures
            step(*old(self), *final(self)),
            r is Ok ==> progress(*old(self), *final(self)),
            r is Ok ==> r->Ok_0 is LetAlias,
            !(old(self).current_token.0 is Let) ==> r == Err::<Expr, ParserError>(old(self).failure()),
        decreases old(self).measure(), 8nat,
    {
        let (_, range) = match self.consume(&Token::Let) {
            Err(e) => return Err(e),
            Ok(v) => v,
        };
        let (name, _) = match self.consume_variable() {
            Err(e) => return Err(e),
            Ok(v) => v,
        };
        let symbol = Symbol::new(name);
        if let Err(e) = self.consume(&Token::Colon) {
            return Err(e);
        }
        let anno = match self.parse_type() {
            Err(e) => return Err(e),
            Ok(t) => t,
        };
        if let Err(e) = self.consume(&Token::Equal) {
            return Err(e);
        }
        let value = match self.parse_expr() {
            Err(e) => return Err(e),
            Ok(v) => v,
        };
        if let Err(e) = self.consume(&Token::In) {
            return Err(e);
        }
        let body = match self.parse_expr() {
            Err(e) => return Err(e),
            Ok(b) => b,
        };
        let value_range = range.mix(value.range());
        let body_range = range.mix(body.range());
        Ok(
            Expr::LetAlias(
                LetAlias {
                    name: symbol,
                    value: Box::new(Expr::Anno(Anno { expr: Box::new(value), anno, range: value_range })),
                    body: Box::new(body),
                    range: body_range,
                },
            ),
        )
    }

    /// `type A: K = T in body`; the value is kept annotated with `K`.
    pub fn parse_type_alias(&mut self) -> (r: Result<Expr, ParserError>)
        requires
            old(self).wf(),
        ensures
            step(*old(self), *final(self)),
            r is Ok ==> progress(*old(self), *final(self)),
            r is Ok ==> r->Ok_0 is TypeAlias,
            !(old(self).current_token.0 is Type) ==> r == Err::<Expr, ParserError>(old(self).failure()),
        decreases old(self).measure(), 8nat,
    {
        let (_, range) = match self.consume(&Token::Type) {
            Err(e) => return Err(e),
            Ok(v) => v,
        };
        let (name, _) = match self.consume_type_variable() {
            Err(e) => return Err(e),
            Ok(v) => v,
        };
        let symbol = Symbol::new(name);
        if let Err(e) = self.consume(&Token::Colon) {
            return Err(e);
        }
        let anno = match self.parse_kind() {
            Err(e) => return Err(e),
            Ok(k) => k,
        };
        if let Err(e) = self.consume(&Token::Equal) {
            return Err(e);
        }
        let value = match self.parse_type() {
            Err(e) => return Err(e),
            Ok(t) => t,
        };
        if let Err(e) = self.consume(&Token::In) {
            return Err(e);
        }
        let body = match self.parse_expr() {
            Err(e) => return Err(e),
            Ok(b) => b,
        };
        let body_range = range.mix(body.range());
        Ok(
            Expr::TypeAlias(
                TypeAlias {
                    name: symbol,
                    value: Type::TyAnno(TyAnno { ty: Box::new(value), anno }),
                    body: Box::new(body),
                    range: body_range,
                },
            ),
        )
    }

    /// `kind A = K in body`.
    pub fn parse_kind_alias(&mut self) -> (r: Result<Expr, ParserError>)
        requires
            old(self).wf(),
        ensures
            step(*old(self), *final(self)),
            r is Ok ==> progress(*old(self), *final(self)),
            r is Ok ==> r->Ok_0 is KindAlias,
            !(old(self).current_token.0 is Kind) ==> r == Err::<Expr, ParserError>(old(self).failure()),
        decreases old(self).measure(), 8nat,
    {
        let (_, range) = match self.consume(&Token::Kind) {
            Err(e) => return Err(e),
            Ok(v) => v,
        };
        let (name, _) = match self.consume_type_variable() {
            Err(e) => return Err(e),
            Ok(v) => v,
        };
        let symbol = Symbol::new(name);
        if let Err(e) = self.consume(&Token::Equal) {
            return Err(e);
        }
        let value = match self.parse_kind() {
            Err(e) => return Err(e),
            Ok(k) => k,
        };
        if let Err(e) = self.consume(&Token::In) {
            return Err(e);
        }
        let body = match self.parse_expr() {
            Err(e) => return Err(e),
            Ok(b) => b,
        };
        let body_range = range.mix(body.range());
        Ok(Expr::KindAlias(KindAlias { name: symbol, value, body: Box::new(body), range: body_range }))
    }

    /// `(e : T)`, where `e` is an abstraction or an application chain.
    pub fn parse_annot(&mut self) -> (r: Result<Expr, ParserError>)
        requires
            old(self).wf(),
        ensures
            step(*old(self), *final(self)),
            r is Ok ==> progress(*old(self), *final(self)),
            r is Ok ==> r->Ok_0 is Anno,
            !(old(self).current_token.0 is LParen) ==> r == Err::<Expr, ParserError>(old(self).failure()),
        decreases old(self).measure(), 7nat,
    {
        let (_, range) = match self.consume(&Token::LParen) {
            Err(e) => return Err(e),
            Ok(v) => v,
        };
        let expr = match self.parse_annot_lambda() {
            Err(e) => return Err(e),
            Ok(x) => x,
        };
        if let Err(e) = self.consume(&Token::Colon) {
            return Err(e);
        }
        let ty = match self.parse_type() {
            Err(e) => return Err(e),
            Ok(t) => t,
        };
        Ok(Expr::Anno(Anno { expr: Box::new(expr), anno: ty, range }))
    }

    /// An abstraction or an application chain.
    pub fn parse_annot_lambda(&mut self) -> (r: Result<Expr, ParserError>)
        requires
            old(self).wf(),
        ensures
            step(*old(self), *final(self)),
            r is Ok ==> progress(*old(self), *final(self)),
            lone_atom(*old(self)) ==> r == Ok::<Expr, ParserError>(atom_of(old(self).current_token)->Some_0),
        decreases old(self).measure(), 8nat,
    {
        if self.at(&Token::Lambda) {
            self.parse_abs()
        } else {
            self.parse_application()
        }
    }

    /// An annotated expression `(e : T)`, or an expression.
    pub fn parse_annot_expr(&mut self) -> (r: Result<Expr, ParserError>)
        requires
            old(self).wf(),
        ensures
            step(*old(self), *final(self)),
            r is Ok ==> progress(*old(self), *final(self)),
        decreases old(self).measure(), 10nat,
    {
        if self.at(&Token::LParen) {
            self.parse_annot()
        } else {
            self.parse_expr()
        }
    }

    /// An expression: an alias binding, an abstraction or an application chain.
    pub fn parse_expr(&mut self) -> (r: Result<Expr, ParserError>)
        requires
            old(self).wf(),
        ensures
            step(*old(self), *final(self)),
            r is Ok ==> progress(*old(self), *final(self)),
            old(self).current_token.0 is Let && r is Ok ==> r->Ok_0 is LetAlias,
            old(self).current_token.0 is Type && r is Ok ==> r->Ok_0 is TypeAlias,
            old(self).current_token.0 is Kind && r is Ok ==> r->Ok_0 is KindAlias,
            lone_atom(*old(self)) ==> r == Ok::<Expr, ParserError>(atom_of(old(self).current_token)->Some_0),
        decreases old(self).measure(), 9nat,
    {
        if self.at(&Token::Let) {
            self.parse_let_alias()
        } else if self.at(&Token::Type) {
            self.parse_type_alias()
        } else if self.at(&Token::Kind) {
            self.parse_kind_alias()
        } else {
            self.parse_annot_lambda()
        }
    }

    /// A simple type followed by argument simple types; type applications associate to
    /// the left.
    pub fn parse_type_call(&mut self) -> (r: Result<Type, ParserError>)
        requires
            old(self).wf(),
        ensures
            step(*old(self), *final(self)),
            r is Ok ==> progress(*old(self), *final(self)),
            lone_simple_type(*old(self)) ==> r == Ok::<Type, ParserError>(simple_type_of(old(self).current_token.0)->Some_0)
                && final(self).current_token == old(self).next_token,
        decreases old(self).measure(), 3nat,
    {
        let mut func = match self.parse_simple_type() {
            Err(e) => return Err(e),
            Ok(f) => f,
        };
        loop
            invariant
                progress(*old(self), *self),
                lone_simple_type(*old(self)) ==> func == simple_type_of(old(self).current_token.0)->Some_0
                    && self.current_token == old(self).next_token,
            decreases self.measure(),
        {
            let before = self.after;
            let attempt = self.parse_simple_type();
            match self.try_single(before, attempt) {
                Err(e) => return Err(e),
                Ok(None) => break,
                Ok(Some(arg)) => {
                    func = Type::TyApp(TyApp { lambda: Box::new(func), argm: Box::new(arg) });
                },
            }
        }
        Ok(func)
    }

    /// A type-level application chain.
    pub fn parse_type_application(&mut self) -> (r: Result<Type, ParserError>)
        requires
            old(self).wf(),
        ensures
            step(*old(self), *final(self)),
            r is Ok ==> progress(*old(self), *final(self)),
            lone_simple_type(*old(self)) ==> r == Ok::<Type, ParserError>(simple_type_of(old(self).current_token.0)->Some_0)
                && final(self).current_token == old(self).next_token,
        decreases old(self).measure(), 4nat,
    {
        self.parse_type_call()
    }

    /// A simple type: `(T)`, `Int`, a type variable, `∀A: K. T` or `λA: K. T`.
    pub fn parse_simple_type(&mut self) -> (r: Result<Type, ParserError>)
        requires
            old(self).wf(),
        ensures
            step(*old(self), *final(self)),
            r is Ok ==> progress(*old(self), *final(self)),
            simple_type_of(old(self).current_token.0) is Some ==> r == Ok::<Type, ParserError>(
                simple_type_of(old(self).current_token.0)->Some_0,
            ) && final(self).current_token == old(self).next_token,
            !(old(self).current_token.0 is LParen || old(self).current_token.0 is TInt
                || old(self).current_token.0 is TVar || old(self).current_token.0 is Forall
                || old(self).current_token.0 is Lambda) ==> r == Err::<Type, ParserError>(
                old(self).failure(),
            ) && *final(self) == *old(self),
        decreases old(self).measure(), 2nat,
    {
        if self.at(&Token::LParen) {
            let _ = self.advance();
            let ty = match self.parse_type() {
                Err(e) => return Err(e),
                Ok(t) => t,
            };
            if let Err(e) = self.consume(&Token::RParen) {
                return Err(e);
            }
            Ok(ty)
        } else if self.at(&Token::TInt) {
            let _ = self.advance();
            Ok(Type::TInt(TInt {  }))
        } else if self.at(&Token::TVar(String::new())) {
            let (token, _) = match self.consume_type_variable() {
                Err(e) => return Err(e),
                Ok(v) => v,
            };
            Ok(Type::TVar(TVar { value: Symbol::new(token) }))
        } else if self.at(&Token::Forall) || self.at(&Token::Lambda) {
            let operator = self.at(&Token::Lambda);
            let _ = self.advance();
            let (param, _) = match self.consume_type_variable() {
                Err(e) => return Err(e),
                Ok(v) => v,
            };
            let symbol = Symbol::new(param);
            if let Err(e) = self.consume(&Token::Colon) {
                return Err(e);
            }
            let param_type = match self.parse_kind() {
                Err(e) => return Err(e),
                Ok(k) => k,
            };
            if let Err(e) = self.consume(&Token::Dot) {
                return Err(e);
            }
            let body = match self.parse_type() {
                Err(e) => return Err(e),
                Ok(t) => t,
            };
            if operator {
                Ok(Type::TyAbs(TyAbs { param: symbol, param_ty: param_type, body: Box::new(body) }))
            } else {
                Ok(Type::Forall(Forall { param: symbol, param_ty: param_type, body: Box::new(body) }))
            }
        } else {
            self.fail()
        }
    }

    /// `head -> T` if an arrow follows, else `head`; arrows associate to the right.
    pub fn parse_arrow_partial(&mut self, head: Type) -> (r: Result<Type, ParserError>)
        requires
            old(self).wf(),
        ensures
            step(*old(self), *final(self)),
            !(old(self).current_token.0 is Arrow) ==> r == Ok::<Type, ParserError>(head)
                && *final(self) == *old(self),
            old(self).current_token.0 is Arrow && r is Ok ==> r->Ok_0 is Arrow,
        decreases old(self).measure(), 1nat,
    {
        if self.at(&Token::Arrow) {
            let _ = self.advance();
            let body = match self.parse_type() {
                Err(e) => return Err(e),
                Ok(t) => t,
            };
            Ok(Type::Arrow(Arrow { left: Box::new(head), right: Box::new(body) }))
        } else {
            Ok(head)
        }
    }

    /// A type: an application chain, optionally followed by `-> T`.
    pub fn parse_type(&mut self) -> (r: Result<Type, ParserError>)
        requires
            old(self).wf(),
        ensures
            step(*old(self), *final(self)),
            r is Ok ==> progress(*old(self), *final(self)),
            lone_simple_type(*old(self)) && !(old(self).next_token.0 is Arrow) ==> r == Ok::<Type, ParserError>(
                simple_type_of(old(self).current_token.0)->Some_0,
            ),
        decreases old(self).measure(), 5nat,
    {
        let head = match self.parse_type_application() {
            Err(e) => return Err(e),
            Ok(h) => h,
        };
        self.parse_arrow_partial(head)
    }

    /// `head -> K` if an arrow follows, else `head`; arrows associate to the right.
    pub fn parse_arrow_kind(&mut self, head: Kind) -> (r: Result<Kind, ParserError>)
        requires
            old(self).wf(),
        ensures
            step(*old(self), *final(self)),
            !(old(self).current_token.0 is Arrow) ==> r == Ok::<Kind, ParserError>(head)
                && *final(self) == *old(self),
            old(self).current_token.0 is Arrow && r is Ok ==> r->Ok_0 is KindArrow,
        decreases old(self).measure(), 1nat,
    {
        if self.at(&Token::Arrow) {
            let _ = self.advance();
            let body = match self.parse_kind() {
                Err(e) => return Err(e),
                Ok(k) => k,
            };
            Ok(Kind::KindArrow(KindArrow { left: Box::new(head), right: Box::new(body) }))
        } else {
            Ok(head)
        }
    }

    /// `*` or a kind alias name.
    pub fn parse_simple_kind(&mut self) -> (r: Result<Kind, ParserError>)
        requires
            old(self).wf(),
        ensures
            step(*old(self), *final(self)),
            r is Ok ==> progress(*old(self), *final(self)),
            match old(self).current_token.0 {
                Token::Star => r == Ok::<Kind, ParserError>(Kind::Star(Star {  }))
                    && final(self).current_token == old(self).next_token,
                Token::TVar(name) => r == Ok::<Kind, ParserError>(
                    Kind::KindVar(KindVar { value: Symbol { id: 0, name } }),
                ) && final(self).current_token == old(self).next_token,
                _ => r == Err::<Kind, ParserError>(old(self).failure()) && *final(self) == *old(self),
            },
    {
        if self.at(&Token::Star) {
            let _ = self.advance();
            Ok(Kind::Star(Star {  }))
        } else if self.at(&Token::TVar(String::new())) {
            let (token, _) = match self.consume_type_variable() {
                Err(e) => return Err(e),
                Ok(v) => v,
            };
            Ok(Kind::KindVar(KindVar { value: Symbol::new(token) }))
        } else {
            self.fail()
        }
    }

    /// A kind: a simple or parenthesized kind, optionally followed by `-> K`.
    pub fn parse_kind(&mut self) -> (r: Result<Kind, ParserError>)
        requires
            old(self).wf(),
        ensures
            step(*old(self), *final(self)),
            r is Ok ==> progress(*old(self), *final(self)),
            simple_kind_of(old(self).current_token.0) is Some && !(old(self).next_token.0 is Arrow) ==> r == Ok::<
                Kind,
                ParserError,
            >(simple_kind_of(old(self).current_token.0)->Some_0),
        decreases old(self).measure(), 3nat,
    {
        if self.at(&Token::LParen) {
            let _ = self.advance();
            let head = match self.parse_kind() {
                Err(e) => return Err(e),
                Ok(k) => k,
            };
            if let Err(e) = self.consume(&Token::RParen) {
                return Err(e);
            }
            self.parse_arrow_kind(head)
        } else {
            let head = match self.parse_simple_kind() {
                Err(e) => return Err(e),
                Ok(k) => k,
            };
            self.parse_arrow_kind(head)
        }
    }
}

/// Parses a whole program text as an expression.
pub fn from_string(str: &str) -> (r: Result<Expr, ParserError>)
{
    let mut parser = match Parser::init(str) {
        Err(e) => return Err(e),
        Ok(p) => p,
    };
    parser.parse_expr()
}

} // verus!
