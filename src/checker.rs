use vstd::prelude::*;

use crate::context::{found, Context, ContextExpr, ContextType, Scope};
use crate::equivalence::{check_kind_equiv, check_type_equiv, kinds_equiv, types_equiv};
use crate::errors::TypeError;
use crate::normalize::{normal_form, normalize};
use crate::parsetree::{
    copy_expr, copy_kind, copy_type, Abs, Anno, App, Arrow, Expr, Forall, Int, Kind, KindAlias,
    KindArrow, KindVar, LetAlias, Star, TAbs, TApp, TInt, TVar, TyAbs, TyAnno, TyApp, Type,
    TypeAlias, Var,
};
use crate::substitution::{subst, substitution};
use crate::typedtree::{annot, int_star};
use crate::typedtree as T;

verus! {

/// The fuel that `type_of` grants for alias expansions and type-level beta steps.
pub const TYPE_OF_FUEL: u64 = 512;

/// The elaboration of a surface kind. A kind alias is expanded at each reference, at the
/// cost of one unit of fuel.
pub open spec fn kind_of(ctx: Scope, kind: Kind, fuel: nat) -> Result<T::Kind, TypeError>
    decreases fuel, kind,
{
    match kind {
        Kind::Star(_) => Ok(T::Kind::Star),
        Kind::KindVar(KindVar { value }) => match found(ctx.kinds, value) {
            Err(e) => Err(e),
            Ok(alias) => if fuel == 0 {
                Err(TypeError::BudgetExceeded)
            } else {
                kind_of(ctx, alias, (fuel - 1) as nat)
            },
        },
        Kind::KindArrow(KindArrow { left, right }) => match kind_of(ctx, *left, fuel) {
            Err(e) => Err(e),
            Ok(left) => match kind_of(ctx, *right, fuel) {
                Err(e) => Err(e),
                Ok(right) => Ok(T::Kind::KindArrow { left: Box::new(left), right: Box::new(right) }),
            },
        },
    }
}

/// The elaboration of a surface type together with its kind (`infer_type`).
pub open spec fn type_elab(ctx: Scope, ty: Type, fuel: nat) -> Result<T::Annoted, TypeError>
    decreases fuel, ty, 0nat,
{
    match ty {
        Type::TInt(_) => Ok(int_star()),
        Type::TyAnno(TyAnno { ty, anno }) => match kind_of(ctx, anno, fuel) {
            Err(e) => Err(e),
            Ok(k) => type_checked(ctx, *ty, k, fuel),
        },
        Type::TVar(TVar { value }) => match found(ctx.types, value) {
            Err(e) => Err(e),
            Ok(ContextType::Alias(alias)) => if fuel == 0 {
                Err(TypeError::BudgetExceeded)
            } else {
                type_elab(ctx, alias, (fuel - 1) as nat)
            },
            Ok(ContextType::Value(k)) => Ok(annot(T::Type::Var { value }, k)),
        },
        Type::Forall(Forall { param, param_ty, body }) => match kind_of(ctx, param_ty, fuel) {
            Err(e) => Err(e),
            Ok(k) => match type_checked(
                ctx.with_type(param, ContextType::Value(k)),
                *body,
                T::Kind::Star,
                fuel,
            ) {
                Err(e) => Err(e),
                Ok(body) => Ok(annot(T::Type::Forall { param, param_ty: k, body }, T::Kind::Star)),
            },
        },
        Type::Arrow(Arrow { left, right }) => match type_checked(ctx, *left, T::Kind::Star, fuel) {
            Err(e) => Err(e),
            Ok(left) => match type_checked(ctx, *right, T::Kind::Star, fuel) {
                Err(e) => Err(e),
                Ok(right) => Ok(annot(T::Type::Arrow { left, right }, T::Kind::Star)),
            },
        },
        Type::TyAbs(TyAbs { param, param_ty, body }) => match kind_of(ctx, param_ty, fuel) {
            Err(e) => Err(e),
            Ok(k) => match type_checked(
                ctx.with_type(param, ContextType::Value(k)),
                *body,
                T::Kind::Star,
                fuel,
            ) {
                Err(e) => Err(e),
                Ok(body) => Ok(
                    annot(
                        T::Type::TyAbs { param, param_ty: k, body },
                        T::Kind::KindArrow { left: Box::new(k), right: Box::new(body.kind) },
                    ),
                ),
            },
        },
        Type::TyApp(TyApp { lambda, argm }) => match type_elab(ctx, *lambda, fuel) {
            Err(e) => Err(e),
            Ok(lambda) => match lambda.kind {
                T::Kind::Star => Err(TypeError::TypeClash),
                T::Kind::KindArrow { left, right } => match type_checked(ctx, *argm, *left, fuel) {
                    Err(e) => Err(e),
                    Ok(argm) => Ok(annot(T::Type::TyApp { lambda, argm }, *right)),
                },
            },
        },
    }
}

/// The elaboration of a surface type whose kind must be `expected` (`check_type`).
pub open spec fn type_checked(ctx: Scope, ty: Type, expected: T::Kind, fuel: nat) -> Result<
    T::Annoted,
    TypeError,
>
    decreases fuel, ty, 1nat,
{
    match type_elab(ctx, ty, fuel) {
        Err(e) => Err(e),
        Ok(received) => match kinds_equiv(received.kind, expected) {
            Err(e) => Err(e),
            Ok(_) => Ok(received),
        },
    }
}

pub fn transl_kind(context: &Context, kind: &Kind, fuel: u64) -> (r: Result<T::Kind, TypeError>)
    ensures
        r == kind_of(context@, *kind, fuel as nat),
    decreases fuel, kind,
{
    match kind {
        Kind::Star(Star {  }) => Ok(T::Kind::Star),
        Kind::KindVar(KindVar { value }) => match context.get_kind(value) {
            Err(e) => Err(e),
            Ok(alias) => {
                if fuel == 0 {
                    Err(TypeError::BudgetExceeded)
                } else {
                    transl_kind(context, &alias, fuel - 1)
                }
            },
        },
        Kind::KindArrow(KindArrow { left, right }) => {
            let left = match transl_kind(context, left, fuel) {
                Err(e) => return Err(e),
                Ok(l) => l,
            };
            let right = match transl_kind(context, right, fuel) {
                Err(e) => return Err(e),
                Ok(r) => r,
            };
            Ok(T::Kind::KindArrow { left: Box::new(left), right: Box::new(right) })
        },
    }
}

pub fn infer_type(context: &Context, ty: Type, fuel: u64) -> (r: Result<T::Annoted, TypeError>)
    ensures
        r == type_elab(context@, ty, fuel as nat),
    decreases fuel, ty, 0nat,
{
    match ty {
        Type::TInt(TInt {  }) => Ok(T::Annoted { desc: Box::new(T::Type::Int), kind: T::Kind::Star }),
        Type::TyAnno(TyAnno { ty, anno }) => match transl_kind(context, &anno, fuel) {
            Err(e) => Err(e),
            Ok(annotation) => check_type(context, *ty, annotation, fuel),
        },
        Type::TVar(TVar { value }) => match context.get_type(&value) {
            Err(e) => Err(e),
            Ok(ContextType::Alias(alias)) => {
                if fuel == 0 {
                    Err(TypeError::BudgetExceeded)
                } else {
                    infer_type(context, alias, fuel - 1)
                }
            },
            Ok(ContextType::Value(kind)) => Ok(
                T::Annoted { desc: Box::new(T::Type::Var { value }), kind },
            ),
        },
        Type::Forall(Forall { param, param_ty, body }) => {
            let param_ty = match transl_kind(context, &param_ty, fuel) {
                Err(e) => return Err(e),
                Ok(k) => k,
            };
            let mut inner = context.clone();
            inner.add_type(&param, param_ty.clone());
            let body = match check_type(&inner, *body, T::Kind::Star, fuel) {
                Err(e) => return Err(e),
                Ok(b) => b,
            };
            Ok(
                T::Annoted {
                    desc: Box::new(T::Type::Forall { param, param_ty, body }),
                    kind: T::Kind::Star,
                },
            )
        },
        Type::Arrow(Arrow { left, right }) => {
            let left = match check_type(context, *left, T::Kind::Star, fuel) {
                Err(e) => return Err(e),
                Ok(l) => l,
            };
            let right = match check_type(context, *right, T::Kind::Star, fuel) {
                Err(e) => return Err(e),
                Ok(r) => r,
            };
            Ok(T::Annoted { desc: Box::new(T::Type::Arrow { left, right }), kind: T::Kind::Star })
        },
        Type::TyAbs(TyAbs { param, param_ty, body }) => {
            let param_ty = match transl_kind(context, &param_ty, fuel) {
                Err(e) => return Err(e),
                Ok(k) => k,
            };
            let mut inner = context.clone();
            inner.add_type(&param, param_ty.clone());
            let body = match check_type(&inner, *body, T::Kind::Star, fuel) {
                Err(e) => return Err(e),
                Ok(b) => b,
            };
            let kind = T::Kind::KindArrow {
                left: Box::new(param_ty.clone()),
                right: Box::new(body.kind.clone()),
            };
            Ok(T::Annoted { desc: Box::new(T::Type::TyAbs { param, param_ty, body }), kind })
        },
        Type::TyApp(TyApp { lambda, argm }) => {
            let lambda = match infer_type(context, *lambda, fuel) {
                Err(e) => return Err(e),
                Ok(l) => l,
            };
            match lambda.kind.clone() {
                T::Kind::Star => Err(TypeError::TypeClash),
                T::Kind::KindArrow { left, right } => {
                    let argm = match check_type(context, *argm, *left, fuel) {
                        Err(e) => return Err(e),
                        Ok(a) => a,
                    };
                    Ok(T::Annoted { desc: Box::new(T::Type::TyApp { lambda, argm }), kind: *right })
                },
            }
        },
    }
}

pub fn check_type(context: &Context, ty: Type, expected: T::Kind, fuel: u64) -> (r: Result<
    T::Annoted,
    TypeError,
>)
    ensures
        r == type_checked(context@, ty, expected, fuel as nat),
    decreases fuel, ty, 1nat,
{
    let received = match infer_type(context, ty, fuel) {
        Err(e) => return Err(e),
        Ok(t) => t,
    };
    match check_kind_equiv(&received.kind, &expected) {
        Err(e) => Err(e),
        Ok(_) => Ok(received),
    }
}

/// The type synthesized for an expression (`infer_expr`).
pub open spec fn expr_type(ctx: Scope, ex: Expr, fuel: nat) -> Result<T::Annoted, TypeError>
    decreases fuel, ex, 0nat,
{
    match ex {
        Expr::Anno(Anno { expr, anno, .. }) => match type_checked(ctx, anno, T::Kind::Star, fuel) {
            Err(e) => Err(e),
            Ok(annotation) => match expr_checked(ctx, *expr, annotation, fuel) {
                Err(e) => Err(e),
                Ok(_) => Ok(annotation),
            },
        },
        Expr::LetAlias(LetAlias { name, value, body, .. }) => expr_type(
            ctx.with_expr(name, ContextExpr::Alias(*value)),
            *body,
            fuel,
        ),
        Expr::TypeAlias(TypeAlias { name, value, body, .. }) => expr_type(
            ctx.with_type(name, ContextType::Alias(value)),
            *body,
            fuel,
        ),
        Expr::KindAlias(KindAlias { name, value, body, .. }) => expr_type(
            ctx.with_kind(name, value),
            *body,
            fuel,
        ),
        Expr::Int(_) => Ok(int_star()),
        Expr::Var(Var { value, .. }) => match found(ctx.exprs, value) {
            Err(e) => Err(e),
            Ok(ContextExpr::Value(t)) => Ok(t),
            Ok(ContextExpr::Alias(alias)) => if fuel == 0 {
                Err(TypeError::BudgetExceeded)
            } else {
                expr_type(ctx, alias, (fuel - 1) as nat)
            },
        },
        Expr::Abs(Abs { param, param_ty, body, .. }) => match type_checked(
            ctx,
            param_ty,
            T::Kind::Star,
            fuel,
        ) {
            Err(e) => Err(e),
            Ok(param_ty) => match expr_type(
                ctx.with_expr(param, ContextExpr::Value(param_ty)),
                *body,
                fuel,
            ) {
                Err(e) => Err(e),
                Ok(body_ty) => Ok(
                    annot(T::Type::Arrow { left: param_ty, right: body_ty }, T::Kind::Star),
                ),
            },
        },
        Expr::App(App { lambda, argm, .. }) => match expr_type(ctx, *lambda, fuel) {
            Err(e) => Err(e),
            Ok(lambda_ty) => match normal_form(lambda_ty, fuel) {
                Err(e) => Err(e),
                Ok(head) => match *head.desc {
                    T::Type::Arrow { left, right } => match expr_checked(ctx, *argm, left, fuel) {
                        Err(e) => Err(e),
                        Ok(_) => Ok(right),
                    },
                    other => Err(TypeError::TypeNotAArrow(other)),
                },
            },
        },
        Expr::TAbs(TAbs { param, param_ty, body, .. }) => match kind_of(ctx, param_ty, fuel) {
            Err(e) => Err(e),
            Ok(k) => match expr_type(ctx.with_type(param, ContextType::Value(k)), *body, fuel) {
                Err(e) => Err(e),
                Ok(body) => Ok(annot(T::Type::Forall { param, param_ty: k, body }, T::Kind::Star)),
            },
        },
        Expr::TApp(TApp { lambda, argm, .. }) => match expr_type(ctx, *lambda, fuel) {
            Err(e) => Err(e),
            Ok(lambda_ty) => match normal_form(lambda_ty, fuel) {
                Err(e) => Err(e),
                Ok(head) => match *head.desc {
                    T::Type::Forall { param, param_ty, body } => match type_checked(
                        ctx,
                        argm,
                        param_ty,
                        fuel,
                    ) {
                        Err(e) => Err(e),
                        Ok(argm) => Ok(subst(body, param, *argm.desc)),
                    },
                    other => Err(TypeError::TypeNotAForall(other)),
                },
            },
        },
    }
}

/// Whether an expression checks against an expected type (`check_expr`). The expected type
/// is normalized first; a type abstraction meets a universal type and a value abstraction
/// meets a function type by pushing the expectation inward; any other pairing synthesizes a
/// type and compares its normal form with the normalized expectation.
pub open spec fn expr_checked(ctx: Scope, ex: Expr, expected: T::Annoted, fuel: nat) -> Result<
    (),
    TypeError,
>
    decreases fuel, ex, 1nat,
{
    match normal_form(expected, fuel) {
        Err(e) => Err(e),
        Ok(exp) => match (ex, *exp.desc) {
            (
                Expr::TAbs(TAbs { param: rp, param_ty: rk, body: rb, .. }),
                T::Type::Forall { param: ep, param_ty: ek, body: eb },
            ) => match kind_of(ctx, rk, fuel) {
                Err(e) => Err(e),
                Ok(k) => match kinds_equiv(k, ek) {
                    Err(e) => Err(e),
                    Ok(_) => expr_checked(
                        ctx.with_type(rp, ContextType::Value(ek)),
                        *rb,
                        subst(eb, ep, T::Type::Var { value: rp }),
                        fuel,
                    ),
                },
            },
            (
                Expr::Abs(Abs { param, param_ty, body, .. }),
                T::Type::Arrow { left, right },
            ) => match type_checked(ctx, param_ty, T::Kind::Star, fuel) {
                Err(e) => Err(e),
                Ok(received) => match normal_form(received, fuel) {
                    Err(e) => Err(e),
                    Ok(received) => match types_equiv(received, left) {
                        Err(e) => Err(e),
                        Ok(_) => expr_checked(
                            ctx.with_expr(param, ContextExpr::Value(left)),
                            *body,
                            right,
                            fuel,
                        ),
                    },
                },
            },
            (ex, _) => match expr_type(ctx, ex, fuel) {
                Err(e) => Err(e),
                Ok(received) => match normal_form(received, fuel) {
                    Err(e) => Err(e),
                    Ok(received) => types_equiv(received, exp),
                },
            },
        },
    }
}

/// The type of a closed expression: synthesized in the empty context, then normalized.
pub open spec fn typing(ex: Expr, fuel: nat) -> Result<T::Annoted, TypeError> {
    match expr_type(Scope::empty(), ex, fuel) {
        Err(e) => Err(e),
        Ok(t) => normal_form(t, fuel),
    }
}

pub fn infer_expr(context: &Context, ex: &Expr, fuel: u64) -> (r: Result<T::Annoted, TypeError>)
    ensures
        r == expr_type(context@, *ex, fuel as nat),
    decreases fuel, ex, 0nat,
{
    match ex {
        Expr::Anno(Anno { expr, anno, .. }) => {
            let annotation = match check_type(context, copy_type(anno), T::Kind::Star, fuel) {
                Err(e) => return Err(e),
                Ok(a) => a,
            };
            match check_expr(context, expr, annotation.clone(), fuel) {
                Err(e) => Err(e),
                Ok(_) => Ok(annotation),
            }
        },
        Expr::LetAlias(LetAlias { name, value, body, .. }) => {
            let mut inner = context.clone();
            inner.add_expr_alias(name, copy_expr(value));
            infer_expr(&inner, body, fuel)
        },
        Expr::TypeAlias(TypeAlias { name, value, body, .. }) => {
            let mut inner = context.clone();
            inner.add_type_alias(name, copy_type(value));
            infer_expr(&inner, body, fuel)
        },
        Expr::KindAlias(KindAlias { name, value, body, .. }) => {
            let mut inner = context.clone();
            inner.add_kind_alias(name, copy_kind(value));
            infer_expr(&inner, body, fuel)
        },
        Expr::Int(Int { .. }) => Ok(T::Annoted { desc: Box::new(T::Type::Int), kind: T::Kind::Star }),
        Expr::Var(Var { value, .. }) => match context.get_expr(value) {
            Err(e) => Err(e),
            Ok(ContextExpr::Value(t)) => Ok(t),
            Ok(ContextExpr::Alias(alias)) => {
                if fuel == 0 {
                    Err(TypeError::BudgetExceeded)
                } else {
                    infer_expr(context, &alias, fuel - 1)
                }
            },
        },
        Expr::Abs(Abs { param, param_ty, body, .. }) => {
            let param_ty = match check_type(context, copy_type(param_ty), T::Kind::Star, fuel) {
                Err(e) => return Err(e),
                Ok(t) => t,
            };
            let mut inner = context.clone();
            inner.add_expr(param, param_ty.clone());
            let body_ty = match infer_expr(&inner, body, fuel) {
                Err(e) => return Err(e),
                Ok(t) => t,
            };
            Ok(
                T::Annoted {
                    desc: Box::new(T::Type::Arrow { left: param_ty, right: body_ty }),
                    kind: T::Kind::Star,
                },
            )
        },
        Expr::App(App { lambda, argm, .. }) => {
            let lambda_ty = match infer_expr(context, lambda, fuel) {
                Err(e) => return Err(e),
                Ok(t) => t,
            };
            let head = match normalize(lambda_ty, fuel) {
                Err(e) => return Err(e),
                Ok(t) => t,
            };
            match *head.desc {
                T::Type::Arrow { left, right } => match check_expr(context, argm, left, fuel) {
                    Err(e) => Err(e),
                    Ok(_) => Ok(right),
                },
                other => Err(TypeError::TypeNotAArrow(other)),
            }
        },
        Expr::TAbs(TAbs { param, param_ty, body, .. }) => {
            let kind = match transl_kind(context, param_ty, fuel) {
                Err(e) => return Err(e),
                Ok(k) => k,
            };
            let mut inner = context.clone();
            inner.add_type(param, kind.clone());
            let body = match infer_expr(&inner, body, fuel) {
                Err(e) => return Err(e),
                Ok(t) => t,
            };
            Ok(
                T::Annoted {
                    desc: Box::new(T::Type::Forall { param: param.clone(), param_ty: kind, body }),
                    kind: T::Kind::Star,
                },
            )
        },
        Expr::TApp(TApp { lambda, argm, .. }) => {
            let lambda_ty = match infer_expr(context, lambda, fuel) {
                Err(e) => return Err(e),
                Ok(t) => t,
            };
            let head = match normalize(lambda_ty, fuel) {
                Err(e) => return Err(e),
                Ok(t) => t,
            };
            match *head.desc {
                T::Type::Forall { param, param_ty, body } => {
                    match check_type(context, copy_type(argm), param_ty, fuel) {
                        Err(e) => Err(e),
                        Ok(argm) => Ok(substitution(body, param, *argm.desc)),
                    }
                },
                other => Err(TypeError::TypeNotAForall(other)),
            }
        },
    }
}

pub fn check_expr(context: &Context, ex: &Expr, expected: T::Annoted, fuel: u64) -> (r: Result<
    (),
    TypeError,
>)
    ensures
        r == expr_checked(context@, *ex, expected, fuel as nat),
    decreases fuel, ex, 1nat,
{
    let exp = match normalize(expected, fuel) {
        Err(e) => return Err(e),
        Ok(t) => t,
    };
    match (ex, &*exp.desc) {
        (
            Expr::TAbs(TAbs { param: rp, param_ty: rk, body: rb, .. }),
            T::Type::Forall { param: ep, param_ty: ek, body: eb },
        ) => {
            let k = match transl_kind(context, rk, fuel) {
                Err(e) => return Err(e),
                Ok(k) => k,
            };
            match check_kind_equiv(&k, ek) {
                Err(e) => Err(e),
                Ok(_) => {
                    let ret = substitution(eb.clone(), ep.clone(), T::Type::Var { value: rp.clone() });
                    let mut inner = context.clone();
                    inner.add_type(rp, ek.clone());
                    check_expr(&inner, rb, ret, fuel)
                },
            }
        },
        (Expr::Abs(Abs { param, param_ty, body, .. }), T::Type::Arrow { left, right }) => {
            let received = match check_type(context, copy_type(param_ty), T::Kind::Star, fuel) {
                Err(e) => return Err(e),
                Ok(t) => t,
            };
            let received = match normalize(received, fuel) {
                Err(e) => return Err(e),
                Ok(t) => t,
            };
            match check_type_equiv(&received, left) {
                Err(e) => Err(e),
                Ok(_) => {
                    let mut inner = context.clone();
                    inner.add_expr(param, left.clone());
                    check_expr(&inner, body, right.clone(), fuel)
                },
            }
        },
        (_, _) => {
            let received = match infer_expr(context, ex, fuel) {
                Err(e) => return Err(e),
                Ok(t) => t,
            };
            let received = match normalize(received, fuel) {
                Err(e) => return Err(e),
                Ok(t) => t,
            };
            check_type_equiv(&received, &exp)
        },
    }
}

/// The entry point: the type of a closed expression, normalized, with `TYPE_OF_FUEL` as
/// the budget for alias expansions and type-level beta steps.
pub fn type_of(ex: Expr) -> (r: Result<T::Annoted, TypeError>)
    ensures
        r == typing(ex, TYPE_OF_FUEL as nat),
{
    let context = Context::new();
    let typed = match infer_expr(&context, &ex, TYPE_OF_FUEL) {
        Err(e) => return Err(e),
        Ok(t) => t,
    };
    normalize(typed, TYPE_OF_FUEL)
}

} // verus!
