use vstd::prelude::*;

use crate::location::Range;
use crate::symbol::Symbol;

verus! {

/// An integer literal.
#[derive(Debug, PartialEq)]
pub struct Int {
    pub value: usize,
    pub range: Range,
}

/// A reference to a value-level variable.
#[derive(Debug, PartialEq)]
pub struct Var {
    pub value: Symbol,
    pub range: Range,
}

/// A value abstraction `λparam: param_ty. body`.
#[derive(Debug, PartialEq)]
pub struct Abs {
    pub param: Symbol,
    pub param_ty: Type,
    pub body: Box<Expr>,
    pub range: Range,
}

/// A value application `lambda argm`.
#[derive(Debug, PartialEq)]
pub struct App {
    pub lambda: Box<Expr>,
    pub argm: Box<Expr>,
    pub range: Range,
}

/// A type abstraction `λParam: param_ty. body`.
#[derive(Debug, PartialEq)]
pub struct TAbs {
    pub param: Symbol,
    pub param_ty: Kind,
    pub body: Box<Expr>,
    pub range: Range,
}

/// A type application `lambda [argm]`.
#[derive(Debug, PartialEq)]
pub struct TApp {
    pub lambda: Box<Expr>,
    pub argm: Type,
    pub range: Range,
}

/// An expression with a type annotation.
#[derive(Debug, PartialEq)]
pub struct Anno {
    pub expr: Box<Expr>,
    pub anno: Type,
    pub range: Range,
}

/// The type of integers.
#[derive(Debug, PartialEq)]
pub struct TInt {}

/// A reference to a type variable.
#[derive(Debug, PartialEq)]
pub struct TVar {
    pub value: Symbol,
}

/// A universal type `∀param: param_ty. body`.
#[derive(Debug, PartialEq)]
pub struct Forall {
    pub param: Symbol,
    pub param_ty: Kind,
    pub body: Box<Type>,
}

/// A function type `left -> right`.
#[derive(Debug, PartialEq)]
pub struct Arrow {
    pub left: Box<Type>,
    pub right: Box<Type>,
}

/// A type operator `λparam: param_ty. body`.
#[derive(Debug, PartialEq)]
pub struct TyAbs {
    pub param: Symbol,
    pub param_ty: Kind,
    pub body: Box<Type>,
}

/// A type-level application `lambda argm`.
#[derive(Debug, PartialEq)]
pub struct TyApp {
    pub lambda: Box<Type>,
    pub argm: Box<Type>,
}

/// A type with a kind annotation.
#[derive(Debug, PartialEq)]
pub struct TyAnno {
    pub ty: Box<Type>,
    pub anno: Kind,
}

/// The kind of proper types, `*`.
#[derive(Debug, PartialEq)]
pub struct Star {}

/// A reference to a kind alias.
#[derive(Debug, PartialEq)]
pub struct KindVar {
    pub value: Symbol,
}

/// The kind of type operators, `left -> right`.
#[derive(Debug, PartialEq)]
pub struct KindArrow {
    pub left: Box<Kind>,
    pub right: Box<Kind>,
}

/// `let name = value in body`: a lazily elaborated expression alias.
#[derive(Debug, PartialEq)]
pub struct LetAlias {
    pub name: Symbol,
    pub value: Box<Expr>,
    pub body: Box<Expr>,
    pub range: Range,
}

/// `type name = value in body`: a lazily elaborated type alias.
#[derive(Debug, PartialEq)]
pub struct TypeAlias {
    pub name: Symbol,
    pub value: Type,
    pub body: Box<Expr>,
    pub range: Range,
}

/// `kind name = value in body`: a kind alias.
#[derive(Debug, PartialEq)]
pub struct KindAlias {
    pub name: Symbol,
    pub value: Kind,
    pub body: Box<Expr>,
    pub range: Range,
}

/// Surface kinds.
#[derive(Debug, PartialEq)]
pub enum Kind {
    Star(Star),
    KindVar(KindVar),
    KindArrow(KindArrow),
}

/// Surface types.
#[derive(Debug, PartialEq)]
pub enum Type {
    TInt(TInt),
    TVar(TVar),
    Arrow(Arrow),
    Forall(Forall),
    TyAbs(TyAbs),
    TyApp(TyApp),
    TyAnno(TyAnno),
}

/// Surface expressions.
#[derive(Debug, PartialEq)]
pub enum Expr {
    Int(Int),
    Var(Var),
    Abs(Abs),
    App(App),
    TAbs(TAbs),
    TApp(TApp),
    LetAlias(LetAlias),
    TypeAlias(TypeAlias),
    KindAlias(KindAlias),
    Anno(Anno),
}

/// The source span that an expression node records.
pub open spec fn range_of(e: Expr) -> Range {
    match e {
        Expr::Int(Int { range, .. }) => range,
        Expr::Var(Var { range, .. }) => range,
        Expr::Abs(Abs { range, .. }) => range,
        Expr::App(App { range, .. }) => range,
        Expr::TAbs(TAbs { range, .. }) => range,
        Expr::TApp(TApp { range, .. }) => range,
        Expr::LetAlias(LetAlias { range, .. }) => range,
        Expr::TypeAlias(TypeAlias { range, .. }) => range,
        Expr::KindAlias(KindAlias { range, .. }) => range,
        Expr::Anno(Anno { range, .. }) => range,
    }
}

impl Expr {
    pub fn range(&self) -> (r: Range)
        ensures
            r == range_of(*self),
    {
        match self {
            Expr::Int(Int { range, .. }) => *range,
            Expr::Var(Var { range, .. }) => *range,
            Expr::Abs(Abs { range, .. }) => *range,
            Expr::App(App { range, .. }) => *range,
            Expr::TAbs(TAbs { range, .. }) => *range,
            Expr::TApp(TApp { range, .. }) => *range,
            Expr::LetAlias(LetAlias { range, .. }) => *range,
            Expr::TypeAlias(TypeAlias { range, .. }) => *range,
            Expr::KindAlias(KindAlias { range, .. }) => *range,
            Expr::Anno(Anno { range, .. }) => *range,
        }
    }
}

/// An exact copy of a surface kind.
pub fn copy_kind(k: &Kind) -> (r: Kind)
    ensures
        r == *k,
    decreases k,
{
    match k {
        Kind::Star(_) => Kind::Star(Star {  }),
        Kind::KindVar(KindVar { value }) => Kind::KindVar(KindVar { value: value.clone() }),
        Kind::KindArrow(KindArrow { left, right }) => Kind::KindArrow(
            KindArrow { left: Box::new(copy_kind(left)), right: Box::new(copy_kind(right)) },
        ),
    }
}

/// An exact copy of a surface type.
pub fn copy_type(t: &Type) -> (r: Type)
    ensures
        r == *t,
    decreases t,
{
    match t {
        Type::TInt(_) => Type::TInt(TInt {  }),
        Type::TVar(TVar { value }) => Type::TVar(TVar { value: value.clone() }),
        Type::Arrow(Arrow { left, right }) => Type::Arrow(
            Arrow { left: Box::new(copy_type(left)), right: Box::new(copy_type(right)) },
        ),
        Type::Forall(Forall { param, param_ty, body }) => Type::Forall(
            Forall {
                param: param.clone(),
                param_ty: copy_kind(param_ty),
                body: Box::new(copy_type(body)),
            },
        ),
        Type::TyAbs(TyAbs { param, param_ty, body }) => Type::TyAbs(
            TyAbs {
                param: param.clone(),
                param_ty: copy_kind(param_ty),
                body: Box::new(copy_type(body)),
            },
        ),
        Type::TyApp(TyApp { lambda, argm }) => Type::TyApp(
            TyApp { lambda: Box::new(copy_type(lambda)), argm: Box::new(copy_type(argm)) },
        ),
        Type::TyAnno(TyAnno { ty, anno }) => Type::TyAnno(
            TyAnno { ty: Box::new(copy_type(ty)), anno: copy_kind(anno) },
        ),
    }
}

/// An exact copy of a surface expression.
pub fn copy_expr(e: &Expr) -> (r: Expr)
    ensures
        r == *e,
    decreases e,
{
    match e {
        Expr::Int(Int { value, range }) => Expr::Int(Int { value: *value, range: *range }),
        Expr::Var(Var { value, range }) => Expr::Var(Var { value: value.clone(), range: *range }),
        Expr::Abs(Abs { param, param_ty, body, range }) => Expr::Abs(
            Abs {
                param: param.clone(),
                param_ty: copy_type(param_ty),
                body: Box::new(copy_expr(body)),
                range: *range,
            },
        ),
        Expr::App(App { lambda, argm, range }) => Expr::App(
            App {
                lambda: Box::new(copy_expr(lambda)),
                argm: Box::new(copy_expr(argm)),
                range: *range,
            },
        ),
        Expr::TAbs(TAbs { param, param_ty, body, range }) => Expr::TAbs(
            TAbs {
                param: param.clone(),
                param_ty: copy_kind(param_ty),
                body: Box::new(copy_expr(body)),
                range: *range,
            },
        ),
        Expr::TApp(TApp { lambda, argm, range }) => Expr::TApp(
            TApp { lambda: Box::new(copy_expr(lambda)), argm: copy_type(argm), range: *range },
        ),
        Expr::LetAlias(LetAlias { name, value, body, range }) => Expr::LetAlias(
            LetAlias {
                name: name.clone(),
                value: Box::new(copy_expr(value)),
                body: Box::new(copy_expr(body)),
                range: *range,
            },
        ),
        Expr::TypeAlias(TypeAlias { name, value, body, range }) => Expr::TypeAlias(
            TypeAlias {
                name: name.clone(),
                value: copy_type(value),
                body: Box::new(copy_expr(body)),
                range: *range,
            },
        ),
        Expr::KindAlias(KindAlias { name, value, body, range }) => Expr::KindAlias(
            KindAlias {
                name: name.clone(),
                value: copy_kind(value),
                body: Box::new(copy_expr(body)),
                range: *range,
            },
        ),
        Expr::Anno(Anno { expr, anno, range }) => Expr::Anno(
            Anno { expr: Box::new(copy_expr(expr)), anno: copy_type(anno), range: *range },
        ),
    }
}

impl Clone for Kind {
    fn clone(&self) -> (r: Kind)
        ensures
            r == *self,
    {
        copy_kind(self)
    }
}

impl Clone for Type {
    fn clone(&self) -> (r: Type)
        ensures
            r == *self,
    {
        copy_type(self)
    }
}

impl Clone for Expr {
    fn clone(&self) -> (r: Expr)
        ensures
            r == *self,
    {
        copy_expr(self)
    }
}

} // verus!
