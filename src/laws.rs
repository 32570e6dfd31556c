use vstd::prelude::*;

use crate::checker::type_checked;
use crate::context::Scope;
use crate::equivalence::types_equiv;
use crate::normalize::{is_normal, normal_form};
use crate::parsetree::Type as SurfaceType;
use crate::substitution::{lemma_subst_var_size, subst};
use crate::symbol::{same_symbol, Symbol};
use crate::typedtree::{size, Annoted, Kind, Type};

verus! {

/// A type built from `Int`, variables, arrows and universal types only: no type-level
/// abstraction or application occurs in it.
pub open spec fn first_order(t: Annoted) -> bool
    decreases t,
{
    match *t.desc {
        Type::Int => true,
        Type::Var { .. } => true,
        Type::Arrow { left, right } => first_order(left) && first_order(right),
        Type::Forall { body, .. } => first_order(body),
        Type::TyAbs { .. } => false,
        Type::TyApp { .. } => false,
    }
}

/// Two types that agree node for node, kinds included, with identifiers compared as
/// bindings.
pub open spec fn same_shape(a: Annoted, b: Annoted) -> bool
    decreases a,
{
    a.kind == b.kind && match (*a.desc, *b.desc) {
        (Type::Int, Type::Int) => true,
        (Type::Var { value: x }, Type::Var { value: y }) => same_symbol(x, y),
        (Type::Arrow { left: l1, right: r1 }, Type::Arrow { left: l2, right: r2 }) => same_shape(
            l1,
            l2,
        ) && same_shape(r1, r2),
        (
            Type::Forall { param: p1, param_ty: k1, body: b1 },
            Type::Forall { param: p2, param_ty: k2, body: b2 },
        ) => same_symbol(p1, p2) && k1 == k2 && same_shape(b1, b2),
        (
            Type::TyAbs { param: p1, param_ty: k1, body: b1 },
            Type::TyAbs { param: p2, param_ty: k2, body: b2 },
        ) => same_symbol(p1, p2) && k1 == k2 && same_shape(b1, b2),
        (Type::TyApp { lambda: l1, argm: a1 }, Type::TyApp { lambda: l2, argm: a2 }) => same_shape(
            l1,
            l2,
        ) && same_shape(a1, a2),
        _ => false,
    }
}

proof fn lemma_normal_form_is_normal(t: Annoted, fuel: nat)
    ensures
        normal_form(t, fuel) is Ok ==> is_normal(normal_form(t, fuel)->Ok_0),
    decreases fuel, t,
{
    match *t.desc {
        Type::Int => {},
        Type::Var { .. } => {},
        Type::Forall { body, .. } => {
            lemma_normal_form_is_normal(body, fuel);
        },
        Type::Arrow { left, right } => {
            lemma_normal_form_is_normal(left, fuel);
            lemma_normal_form_is_normal(right, fuel);
        },
        Type::TyAbs { body, .. } => {
            lemma_normal_form_is_normal(body, fuel);
        },
        Type::TyApp { lambda, argm } => {
            lemma_normal_form_is_normal(lambda, fuel);
            lemma_normal_form_is_normal(argm, fuel);
            if normal_form(lambda, fuel) is Ok && normal_form(argm, fuel) is Ok {
                let l = normal_form(lambda, fuel)->Ok_0;
                let a = normal_form(argm, fuel)->Ok_0;
                if let Type::TyAbs { param, body, .. } = *l.desc {
                    if fuel > 0 {
                        lemma_normal_form_is_normal(subst(body, param, *a.desc), (fuel - 1) as nat);
                    }
                }
            }
        },
    }
}

proof fn lemma_normal_is_fixed(t: Annoted, fuel: nat)
    requires
        is_normal(t),
    ensures
        normal_form(t, fuel) == Ok::<Annoted, crate::errors::TypeError>(t),
    decreases t,
{
    match *t.desc {
        Type::Int => {},
        Type::Var { .. } => {},
        Type::Forall { body, .. } => {
            lemma_normal_is_fixed(body, fuel);
        },
        Type::Arrow { left, right } => {
            lemma_normal_is_fixed(left, fuel);
            lemma_normal_is_fixed(right, fuel);
        },
        Type::TyAbs { body, .. } => {
            lemma_normal_is_fixed(body, fuel);
        },
        Type::TyApp { lambda, argm } => {
            lemma_normal_is_fixed(lambda, fuel);
            lemma_normal_is_fixed(argm, fuel);
        },
    }
}

/// Normalization is idempotent: whatever fuel the second run is given, normalizing a
/// normal form gives it back unchanged.
pub proof fn normalize_idempotent(t: Annoted, fuel: nat, fuel2: nat)
    requires
        normal_form(t, fuel) is Ok,
    ensures
        normal_form(normal_form(t, fuel)->Ok_0, fuel2) == normal_form(t, fuel),
{
    lemma_normal_form_is_normal(t, fuel);
    lemma_normal_is_fixed(normal_form(t, fuel)->Ok_0, fuel2);
}

proof fn lemma_same_shape_refl(t: Annoted)
    ensures
        same_shape(t, t),
    decreases t,
{
    match *t.desc {
        Type::Int => {},
        Type::Var { .. } => {},
        Type::Forall { body, .. } => {
            lemma_same_shape_refl(body);
        },
        Type::Arrow { left, right } => {
            lemma_same_shape_refl(left);
            lemma_same_shape_refl(right);
        },
        Type::TyAbs { body, .. } => {
            lemma_same_shape_refl(body);
        },
        Type::TyApp { lambda, argm } => {
            lemma_same_shape_refl(lambda);
            lemma_same_shape_refl(argm);
        },
    }
}

proof fn lemma_subst_same_shape(t1: Annoted, t2: Annoted, p: Symbol, q: Symbol)
    requires
        same_shape(t1, t2),
        same_symbol(p, q),
    ensures
        same_shape(subst(t1, p, Type::Var { value: q }), t2),
        first_order(t1) ==> first_order(subst(t1, p, Type::Var { value: q })),
    decreases t1,
{
    match (*t1.desc, *t2.desc) {
        (Type::Arrow { left: l1, right: r1 }, Type::Arrow { left: l2, right: r2 }) => {
            lemma_subst_same_shape(l1, l2, p, q);
            lemma_subst_same_shape(r1, r2, p, q);
        },
        (Type::Forall { body: b1, .. }, Type::Forall { body: b2, .. }) => {
            lemma_subst_same_shape(b1, b2, p, q);
        },
        (Type::TyAbs { body: b1, .. }, Type::TyAbs { body: b2, .. }) => {
            lemma_subst_same_shape(b1, b2, p, q);
        },
        (Type::TyApp { lambda: l1, argm: a1 }, Type::TyApp { lambda: l2, argm: a2 }) => {
            lemma_subst_same_shape(l1, l2, p, q);
            lemma_subst_same_shape(a1, a2, p, q);
        },
        _ => {},
    }
}

proof fn lemma_same_shape_equiv(t1: Annoted, t2: Annoted)
    requires
        same_shape(t1, t2),
        first_order(t1),
    ensures
        types_equiv(t1, t2) == Ok::<(), crate::errors::TypeError>(()),
    decreases size(t1),
{
    match (*t1.desc, *t2.desc) {
        (Type::Arrow { left: l1, right: r1 }, Type::Arrow { left: l2, right: r2 }) => {
            lemma_same_shape_equiv(l1, l2);
            lemma_same_shape_equiv(r1, r2);
        },
        (
            Type::Forall { param: p1, param_ty: k1, body: b1 },
            Type::Forall { param: p2, param_ty: k2, body: b2 },
        ) => {
            lemma_subst_same_shape(b1, b2, p1, p2);
            lemma_subst_var_size(b1, p1, p2);
            lemma_same_shape_equiv(subst(b1, p1, Type::Var { value: p2 }), b2);
        },
        _ => {},
    }
}

/// Normal forms represent their equivalence class: a type of kind `*` elaborated by
/// `check_type` from a surface type normalizes to a type that `check_type_equiv` accepts
/// against the elaboration. This holds of elaborations without type-level abstraction or
/// application, on which equivalence is defined.
pub proof fn normalize_round_trip(ctx: Scope, t: SurfaceType, fuel: nat, nfuel: nat)
    requires
        type_checked(ctx, t, Kind::Star, fuel) is Ok,
        first_order(type_checked(ctx, t, Kind::Star, fuel)->Ok_0),
    ensures
        ({
            let a = type_checked(ctx, t, Kind::Star, fuel)->Ok_0;
            &&& normal_form(a, nfuel) is Ok
            &&& types_equiv(normal_form(a, nfuel)->Ok_0, a) == Ok::<
                (),
                crate::errors::TypeError,
            >(())
        }),
{
    let a = type_checked(ctx, t, Kind::Star, fuel)->Ok_0;
    lemma_first_order_normal(a);
    lemma_normal_is_fixed(a, nfuel);
    lemma_same_shape_refl(a);
    lemma_same_shape_equiv(a, a);
}

proof fn lemma_first_order_normal(t: Annoted)
    requires
        first_order(t),
    ensures
        is_normal(t),
    decreases t,
{
    match *t.desc {
        Type::Arrow { left, right } => {
            lemma_first_order_normal(left);
            lemma_first_order_normal(right);
        },
        Type::Forall { body, .. } => {
            lemma_first_order_normal(body);
        },
        _ => {},
    }
}

} // verus!
