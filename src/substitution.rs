use vstd::prelude::*;

use crate::symbol::{same_symbol, Symbol};
use crate::typedtree::{annot, size, Annoted, Type};

verus! {

/// `ty` with every free occurrence of `from` replaced by the node `to`; each replaced node
/// keeps its kind annotation. Binders are not freshened: identifiers are globally unique
/// after renaming, so no capture can occur.
pub open spec fn subst(ty: Annoted, from: Symbol, to: Type) -> Annoted
    decreases ty,
{
    let desc = match *ty.desc {
        Type::Int => Type::Int,
        Type::Var { value } => if same_symbol(value, from) {
            to
        } else {
            Type::Var { value }
        },
        Type::Arrow { left, right } => Type::Arrow {
            left: subst(left, from, to),
            right: subst(right, from, to),
        },
        Type::Forall { param, param_ty, body } => if same_symbol(param, from) {
            Type::Forall { param, param_ty, body }
        } else {
            Type::Forall { param, param_ty, body: subst(body, from, to) }
        },
        Type::TyAbs { param, param_ty, body } => if same_symbol(param, from) {
            Type::TyAbs { param, param_ty, body }
        } else {
            Type::TyAbs { param, param_ty, body: subst(body, from, to) }
        },
        Type::TyApp { lambda, argm } => Type::TyApp {
            lambda: subst(lambda, from, to),
            argm: subst(argm, from, to),
        },
    };
    annot(desc, ty.kind)
}

/// Renaming one variable into another keeps the size of a type.
pub proof fn lemma_subst_var_size(ty: Annoted, from: Symbol, to: Symbol)
    ensures
        size(subst(ty, from, Type::Var { value: to })) == size(ty),
    decreases ty,
{
    match *ty.desc {
        Type::Int => {},
        Type::Var { .. } => {},
        Type::Arrow { left, right } => {
            lemma_subst_var_size(left, from, to);
            lemma_subst_var_size(right, from, to);
        },
        Type::Forall { body, .. } => {
            lemma_subst_var_size(body, from, to);
        },
        Type::TyAbs { body, .. } => {
            lemma_subst_var_size(body, from, to);
        },
        Type::TyApp { lambda, argm } => {
            lemma_subst_var_size(lambda, from, to);
            lemma_subst_var_size(argm, from, to);
        },
    }
}

pub fn substitution(ty: Annoted, from: Symbol, to: Type) -> (r: Annoted)
    ensures
        r == subst(ty, from, to),
    decreases ty,
{
    let kind = ty.kind;
    let desc = match *ty.desc {
        Type::Int => Type::Int,
        Type::Var { value } => if value == from {
            to
        } else {
            Type::Var { value }
        },
        Type::Arrow { left, right } => {
            let left = substitution(left, from.clone(), to.clone());
            let right = substitution(right, from, to);
            Type::Arrow { left, right }
        },
        Type::Forall { param, param_ty, body } => if param == from {
            Type::Forall { param, param_ty, body }
        } else {
            let body = substitution(body, from, to);
            Type::Forall { param, param_ty, body }
        },
        Type::TyAbs { param, param_ty, body } => if param == from {
            Type::TyAbs { param, param_ty, body }
        } else {
            let body = substitution(body, from, to);
            Type::TyAbs { param, param_ty, body }
        },
        Type::TyApp { lambda, argm } => {
            let lambda = substitution(lambda, from.clone(), to.clone());
            let argm = substitution(argm, from, to);
            Type::TyApp { lambda, argm }
        },
    };
    Annoted { desc: Box::new(desc), kind }
}

} // verus!
