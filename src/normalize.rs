use vstd::prelude::*;

use crate::errors::TypeError;
use crate::substitution::{subst, substitution};
use crate::typedtree::{annot, Annoted, Type};

verus! {

/// The normal form of `ty`: redexes `(λp: k. body) argm` are reduced, innermost parts
/// first, until none is left. Each beta step spends one unit of `fuel`; when it is spent,
/// the result is `BudgetExceeded`. The kind annotation of the root is kept.
pub open spec fn normal_form(ty: Annoted, fuel: nat) -> Result<Annoted, TypeError>
    decreases fuel, ty,
{
    match *ty.desc {
        Type::Int => Ok(annot(Type::Int, ty.kind)),
        Type::Var { value } => Ok(annot(Type::Var { value }, ty.kind)),
        Type::Forall { param, param_ty, body } => match normal_form(body, fuel) {
            Err(e) => Err(e),
            Ok(body) => Ok(annot(Type::Forall { param, param_ty, body }, ty.kind)),
        },
        Type::Arrow { left, right } => match normal_form(left, fuel) {
            Err(e) => Err(e),
            Ok(left) => match normal_form(right, fuel) {
                Err(e) => Err(e),
                Ok(right) => Ok(annot(Type::Arrow { left, right }, ty.kind)),
            },
        },
        Type::TyAbs { param, param_ty, body } => match normal_form(body, fuel) {
            Err(e) => Err(e),
            Ok(body) => Ok(annot(Type::TyAbs { param, param_ty, body }, ty.kind)),
        },
        Type::TyApp { lambda, argm } => match normal_form(lambda, fuel) {
            Err(e) => Err(e),
            Ok(lambda) => match normal_form(argm, fuel) {
                Err(e) => Err(e),
                Ok(argm) => match *lambda.desc {
                    Type::TyAbs { param, body, .. } => if fuel == 0 {
                        Err(TypeError::BudgetExceeded)
                    } else {
                        match normal_form(subst(body, param, *argm.desc), (fuel - 1) as nat) {
                            Err(e) => Err(e),
                            Ok(reduced) => Ok(annot(*reduced.desc, ty.kind)),
                        }
                    },
                    _ => Ok(annot(Type::TyApp { lambda, argm }, ty.kind)),
                },
            },
        },
    }
}

/// A type without redexes: no type-level application has an abstraction as its head.
pub open spec fn is_normal(ty: Annoted) -> bool
    decreases ty,
{
    match *ty.desc {
        Type::Int => true,
        Type::Var { .. } => true,
        Type::Forall { body, .. } => is_normal(body),
        Type::Arrow { left, right } => is_normal(left) && is_normal(right),
        Type::TyAbs { body, .. } => is_normal(body),
        Type::TyApp { lambda, argm } => !(*lambda.desc is TyAbs) && is_normal(lambda) && is_normal(
            argm,
        ),
    }
}

pub fn normalize(ty: Annoted, fuel: u64) -> (r: Result<Annoted, TypeError>)
    ensures
        r == normal_form(ty, fuel as nat),
    decreases fuel, ty,
{
    let kind = ty.kind;
    let desc = match *ty.desc {
        Type::Int => Type::Int,
        Type::Var { value } => Type::Var { value },
        Type::Forall { param, param_ty, body } => {
            let body = match normalize(body, fuel) {
                Err(e) => return Err(e),
                Ok(b) => b,
            };
            Type::Forall { param, param_ty, body }
        },
        Type::Arrow { left, right } => {
            let left = match normalize(left, fuel) {
                Err(e) => return Err(e),
                Ok(l) => l,
            };
            let right = match normalize(right, fuel) {
                Err(e) => return Err(e),
                Ok(r) => r,
            };
            Type::Arrow { left, right }
        },
        Type::TyAbs { param, param_ty, body } => {
            let body = match normalize(body, fuel) {
                Err(e) => return Err(e),
                Ok(b) => b,
            };
            Type::TyAbs { param, param_ty, body }
        },
        Type::TyApp { lambda, argm } => {
            let lambda = match normalize(lambda, fuel) {
                Err(e) => return Err(e),
                Ok(l) => l,
            };
            let argm = match normalize(argm, fuel) {
                Err(e) => return Err(e),
                Ok(a) => a,
            };
            match *lambda.desc {
                Type::TyAbs { param, param_ty: _, body } => {
                    if fuel == 0 {
                        return Err(TypeError::BudgetExceeded);
                    }
                    let sub = substitution(body, param, *argm.desc);
                    match normalize(sub, fuel - 1) {
                        Err(e) => return Err(e),
                        Ok(reduced) => *reduced.desc,
                    }
                },
                lambda_desc => Type::TyApp {
                    lambda: Annoted { desc: Box::new(lambda_desc), kind: lambda.kind },
                    argm,
                },
            }
        },
    };
    Ok(Annoted { desc: Box::new(desc), kind })
}

} // verus!
