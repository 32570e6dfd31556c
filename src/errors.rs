use vstd::prelude::*;

use crate::parsetree::Type;
use crate::typedtree as T;

verus! {

/// The ways in which checking can fail.
#[derive(Debug)]
pub enum TypeError {
    /// Argument and parameter types disagree.
    Mismatch(Type, Type),
    /// A reference to an identifier that nothing binds.
    UndefinedVariable(String),
    /// A type of a shape that the context does not allow.
    UnexpectedType(Type),
    /// Two distinct type variables were compared.
    VariableClash,
    /// Structurally incompatible types or kinds were compared, or a type of kind `*`
    /// was applied.
    TypeClash,
    /// A type application to a term whose type is not universal.
    TypeNotAForall(T::Type),
    /// An application of a term whose type is not a function type.
    TypeNotAArrow(T::Type),
    /// The fuel given for alias expansion and type-level beta steps ran out, or no fresh
    /// identifier is left.
    BudgetExceeded,
}

} // verus!
