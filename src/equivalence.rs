use vstd::prelude::*;

use crate::errors::TypeError;
use crate::substitution::{lemma_subst_var_size, subst, substitution};
use crate::symbol::same_symbol;
use crate::typedtree::{size, Annoted, Kind, Type};

verus! {

/// Kind equivalence: structural equality, `TypeClash` otherwise.
pub open spec fn kinds_equiv(received: Kind, expected: Kind) -> Result<(), TypeError> {
    if received == expected {
        Ok(())
    } else {
        Err(TypeError::TypeClash)
    }
}

/// Type equivalence up to renaming of `Forall` binders, without beta steps: the left binder
/// is renamed onto the right one. The first disagreement, left to right, gives the error.
pub open spec fn types_equiv(received: Annoted, expected: Annoted) -> Result<(), TypeError>
    decreases size(received),
{
    match (*received.desc, *expected.desc) {
        (Type::Int, Type::Int) => Ok(()),
        (Type::Var { value: a }, Type::Var { value: b }) => if same_symbol(a, b) {
            Ok(())
        } else {
            Err(TypeError::VariableClash)
        },
        (
            Type::Arrow { left: re_left, right: re_right },
            Type::Arrow { left: ex_left, right: ex_right },
        ) => match types_equiv(re_left, ex_left) {
            Err(e) => Err(e),
            Ok(_) => types_equiv(re_right, ex_right),
        },
        (
            Type::Forall { param: re_param, param_ty: re_kind, body: re_body },
            Type::Forall { param: ex_param, param_ty: ex_kind, body: ex_body },
        ) => if re_kind != ex_kind {
            Err(TypeError::TypeClash)
        } else {
            proof {
                lemma_subst_var_size(re_body, re_param, ex_param);
            }
            types_equiv(subst(re_body, re_param, Type::Var { value: ex_param }), ex_body)
        },
        _ => Err(TypeError::TypeClash),
    }
}

pub fn check_kind_equiv(received: &Kind, expected: &Kind) -> (r: Result<(), TypeError>)
    ensures
        r == kinds_equiv(*received, *expected),
    decreases received,
{
    match (received, expected) {
        (Kind::Star, Kind::Star) => Ok(()),
        (
            Kind::KindArrow { left: received_left, right: received_right },
            Kind::KindArrow { left: expected_left, right: expected_right },
        ) => {
            match check_kind_equiv(received_left, expected_left) {
                Err(e) => Err(e),
                Ok(_) => check_kind_equiv(received_right, expected_right),
            }
        },
        (_, _) => Err(TypeError::TypeClash),
    }
}

pub fn check_type_equiv(received: &Annoted, expected: &Annoted) -> (r: Result<(), TypeError>)
    ensures
        r == types_equiv(*received, *expected),
    decreases size(*received),
{
    match (&*received.desc, &*expected.desc) {
        (Type::Int, Type::Int) => Ok(()),
        (Type::Var { value: re_value }, Type::Var { value: ex_value }) => {
            if *re_value == *ex_value {
                Ok(())
            } else {
                Err(TypeError::VariableClash)
            }
        },
        (
            Type::Arrow { left: re_left, right: re_right },
            Type::Arrow { left: ex_left, right: ex_right },
        ) => {
            match check_type_equiv(re_left, ex_left) {
                Err(e) => Err(e),
                Ok(_) => check_type_equiv(re_right, ex_right),
            }
        },
        (
            Type::Forall { param: re_param, param_ty: re_kind, body: re_body },
            Type::Forall { param: ex_param, param_ty: ex_kind, body: ex_body },
        ) => {
            match check_kind_equiv(re_kind, ex_kind) {
                Err(e) => Err(e),
                Ok(_) => {
                    let to = Type::Var { value: ex_param.clone() };
                    let substituted = substitution(re_body.clone(), re_param.clone(), to);
                    proof {
                        lemma_subst_var_size(*re_body, *re_param, *ex_param);
                    }
                    check_type_equiv(&substituted, ex_body)
                },
            }
        },
        (_, _) => Err(TypeError::TypeClash),
    }
}

} // verus!
