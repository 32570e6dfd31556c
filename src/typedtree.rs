use vstd::prelude::*;

use crate::symbol::Symbol;

verus! {

/// Kinds of the checker's internal representation.
#[derive(Debug, PartialEq)]
pub enum Kind {
    Star,
    KindArrow { left: Box<Kind>, right: Box<Kind> },
}

/// An internal type paired with its synthesized kind.
#[derive(Debug, PartialEq)]
pub struct Annoted {
    pub desc: Box<Type>,
    pub kind: Kind,
}

/// Internal types: surface types without kind annotations, each node kind-annotated.
#[derive(Debug, PartialEq)]
pub enum Type {
    Int,
    Var { value: Symbol },
    Arrow { left: Annoted, right: Annoted },
    Forall { param: Symbol, param_ty: Kind, body: Annoted },
    TyAbs { param: Symbol, param_ty: Kind, body: Annoted },
    TyApp { lambda: Annoted, argm: Annoted },
}

/// The number of nodes of an annotated type.
pub open spec fn size(t: Annoted) -> nat
    decreases t,
{
    match *t.desc {
        Type::Int => 1,
        Type::Var { .. } => 1,
        Type::Arrow { left, right } => 1 + size(left) + size(right),
        Type::Forall { body, .. } => 1 + size(body),
        Type::TyAbs { body, .. } => 1 + size(body),
        Type::TyApp { lambda, argm } => 1 + size(lambda) + size(argm),
    }
}

/// An annotated type built from a node and a kind.
pub open spec fn annot(desc: Type, kind: Kind) -> Annoted {
    Annoted { desc: Box::new(desc), kind }
}

/// `Int`, of kind `*`.
pub open spec fn int_star() -> Annoted {
    annot(Type::Int, Kind::Star)
}

/// An exact copy of a kind.
pub fn copy_kind(k: &Kind) -> (r: Kind)
    ensures
        r == *k,
    decreases k,
{
    match k {
        Kind::Star => Kind::Star,
        Kind::KindArrow { left, right } => Kind::KindArrow {
            left: Box::new(copy_kind(left)),
            right: Box::new(copy_kind(right)),
        },
    }
}

/// An exact copy of a type node.
pub fn copy_type(t: &Type) -> (r: Type)
    ensures
        r == *t,
    decreases t,
{
    match t {
        Type::Int => Type::Int,
        Type::Var { value } => Type::Var { value: value.clone() },
        Type::Arrow { left, right } => Type::Arrow {
            left: copy_annoted(left),
            right: copy_annoted(right),
        },
        Type::Forall { param, param_ty, body } => Type::Forall {
            param: param.clone(),
            param_ty: copy_kind(param_ty),
            body: copy_annoted(body),
        },
        Type::TyAbs { param, param_ty, body } => Type::TyAbs {
            param: param.clone(),
            param_ty: copy_kind(param_ty),
            body: copy_annoted(body),
        },
        Type::TyApp { lambda, argm } => Type::TyApp {
            lambda: copy_annoted(lambda),
            argm: copy_annoted(argm),
        },
    }
}

/// An exact copy of an annotated type.
pub fn copy_annoted(t: &Annoted) -> (r: Annoted)
    ensures
        r == *t,
    decreases t,
{
    Annoted { desc: Box::new(copy_type(&t.desc)), kind: copy_kind(&t.kind) }
}

impl Clone for Kind {
    fn clone(&self) -> (r: Kind)
        ensures
            r == *self,
    {
        copy_kind(self)
    }
}

impl Clone for Type {
    fn clone(&self) -> (r: Type)
        ensures
            r == *self,
    {
        copy_type(self)
    }
}

impl Clone for Annoted {
    fn clone(&self) -> (r: Annoted)
        ensures
            r == *self,
    {
        copy_annoted(self)
    }
}

} // verus!
