use vstd::prelude::*;

use crate::errors::TypeError;
use crate::parsetree::{
    Abs, Anno, App, Arrow, Expr, Forall, Int, Kind, KindAlias, KindArrow, KindVar, LetAlias,
    Star, TAbs, TApp, TInt, TVar, TyAbs, TyAnno, TyApp, Type, TypeAlias, Var,
};
use crate::symbol::Symbol;

verus! {

/// The renamer's state: the identifiers in scope, latest last, and the next counter value.
#[derive(Debug)]
pub struct Names {
    pub names: Vec<Symbol>,
    pub count: usize,
}

/// The identifier that a name refers to: the latest binder of that name in scope.
pub open spec fn resolve(names: Seq<Symbol>, name: Seq<char>) -> Option<Symbol>
    decreases names.len(),
{
    if names.len() == 0 {
        None
    } else if names.last().name@ == name {
        Some(names.last())
    } else {
        resolve(names.drop_last(), name)
    }
}

/// The fresh identifier that the counter value `count` gives to a binder named like `s`.
pub open spec fn fresh(s: Symbol, count: nat) -> Symbol {
    Symbol { id: count as usize, name: s.name }
}

/// A renamed reference, or `UndefinedVariable` for a name that nothing binds.
pub open spec fn resolved(names: Seq<Symbol>, s: Symbol) -> Result<Symbol, TypeError> {
    match resolve(names, s.name@) {
        Some(n) => Ok(n),
        None => Err(TypeError::UndefinedVariable(s.name)),
    }
}

/// A kind with its alias references resolved.
pub open spec fn renamed_kind(names: Seq<Symbol>, k: Kind) -> Result<Kind, TypeError>
    decreases k,
{
    match k {
        Kind::Star(_) => Ok(Kind::Star(Star {  })),
        Kind::KindVar(KindVar { value }) => match resolved(names, value) {
            Err(e) => Err(e),
            Ok(value) => Ok(Kind::KindVar(KindVar { value })),
        },
        Kind::KindArrow(KindArrow { left, right }) => match renamed_kind(names, *left) {
            Err(e) => Err(e),
            Ok(left) => match renamed_kind(names, *right) {
                Err(e) => Err(e),
                Ok(right) => Ok(Kind::KindArrow(KindArrow { left: Box::new(left), right: Box::new(right) })),
            },
        },
    }
}

/// A type with every binder given a fresh identifier (counter values from `count` on, in
/// the order of a left-to-right traversal) and every reference resolved; together with
/// the next counter value.
pub open spec fn renamed_type(names: Seq<Symbol>, count: nat, ty: Type) -> (Result<Type, TypeError>, nat)
    decreases ty,
{
    match ty {
        Type::TInt(_) => (Ok(Type::TInt(TInt {  })), count),
        Type::TVar(TVar { value }) => match resolved(names, value) {
            Err(e) => (Err(e), count),
            Ok(value) => (Ok(Type::TVar(TVar { value })), count),
        },
        Type::Arrow(Arrow { left, right }) => {
            let (l, c1) = renamed_type(names, count, *left);
            match l {
                Err(e) => (Err(e), c1),
                Ok(left) => {
                    let (r, c2) = renamed_type(names, c1, *right);
                    match r {
                        Err(e) => (Err(e), c2),
                        Ok(right) => (Ok(Type::Arrow(Arrow { left: Box::new(left), right: Box::new(right) })), c2),
                    }
                },
            }
        },
        Type::Forall(Forall { param, param_ty, body }) => match renamed_kind(names, param_ty) {
            Err(e) => (Err(e), count),
            Ok(param_ty) => if count >= usize::MAX {
                (Err(TypeError::BudgetExceeded), count)
            } else {
                let p = fresh(param, count);
                let (b, c) = renamed_type(names.push(p), count + 1, *body);
                match b {
                    Err(e) => (Err(e), c),
                    Ok(body) => (Ok(Type::Forall(Forall { param: p, param_ty, body: Box::new(body) })), c),
                }
            },
        },
        Type::TyAbs(TyAbs { param, param_ty, body }) => match renamed_kind(names, param_ty) {
            Err(e) => (Err(e), count),
            Ok(param_ty) => if count >= usize::MAX {
                (Err(TypeError::BudgetExceeded), count)
            } else {
                let p = fresh(param, count);
                let (b, c) = renamed_type(names.push(p), count + 1, *body);
                match b {
                    Err(e) => (Err(e), c),
                    Ok(body) => (Ok(Type::TyAbs(TyAbs { param: p, param_ty, body: Box::new(body) })), c),
                }
            },
        },
        Type::TyApp(TyApp { lambda, argm }) => {
            let (l, c1) = renamed_type(names, count, *lambda);
            match l {
                Err(e) => (Err(e), c1),
                Ok(lambda) => {
                    let (a, c2) = renamed_type(names, c1, *argm);
                    match a {
                        Err(e) => (Err(e), c2),
                        Ok(argm) => (Ok(Type::TyApp(TyApp { lambda: Box::new(lambda), argm: Box::new(argm) })), c2),
                    }
                },
            }
        },
        Type::TyAnno(TyAnno { ty, anno }) => {
            let (t, c) = renamed_type(names, count, *ty);
            match t {
                Err(e) => (Err(e), c),
                Ok(ty) => match renamed_kind(names, anno) {
                    Err(e) => (Err(e), c),
                    Ok(anno) => (Ok(Type::TyAnno(TyAnno { ty: Box::new(ty), anno })), c),
                },
            }
        },
    }
}

/// An expression with every binder (value and type parameters, alias names) given a fresh
/// identifier and every reference resolved, as `renamed_type` does for types. An alias
/// name is in scope in the alias body only, a parameter in the abstraction body only.
pub open spec fn renamed_expr(names: Seq<Symbol>, count: nat, ex: Expr) -> (Result<Expr, TypeError>, nat)
    decreases ex,
{
    match ex {
        Expr::Int(Int { value, range }) => (Ok(Expr::Int(Int { value, range })), count),
        Expr::Var(Var { value, range }) => match resolved(names, value) {
            Err(e) => (Err(e), count),
            Ok(value) => (Ok(Expr::Var(Var { value, range })), count),
        },
        Expr::App(App { lambda, argm, range }) => {
            let (l, c1) = renamed_expr(names, count, *lambda);
            match l {
                Err(e) => (Err(e), c1),
                Ok(lambda) => {
                    let (a, c2) = renamed_expr(names, c1, *argm);
                    match a {
                        Err(e) => (Err(e), c2),
                        Ok(argm) => (Ok(Expr::App(App { lambda: Box::new(lambda), argm: Box::new(argm), range })), c2),
                    }
                },
            }
        },
        Expr::Abs(Abs { param, param_ty, body, range }) => {
            let (t, c1) = renamed_type(names, count, param_ty);
            match t {
                Err(e) => (Err(e), c1),
                Ok(param_ty) => if c1 >= usize::MAX {
                    (Err(TypeError::BudgetExceeded), c1)
                } else {
                    let p = fresh(param, c1);
                    let (b, c2) = renamed_expr(names.push(p), c1 + 1, *body);
                    match b {
                        Err(e) => (Err(e), c2),
                        Ok(body) => (Ok(Expr::Abs(Abs { param: p, param_ty, body: Box::new(body), range })), c2),
                    }
                },
            }
        },
        Expr::TApp(TApp { lambda, argm, range }) => {
            let (l, c1) = renamed_expr(names, count, *lambda);
            match l {
                Err(e) => (Err(e), c1),
                Ok(lambda) => {
                    let (a, c2) = renamed_type(names, c1, argm);
                    match a {
                        Err(e) => (Err(e), c2),
                        Ok(argm) => (Ok(Expr::TApp(TApp { lambda: Box::new(lambda), argm, range })), c2),
                    }
                },
            }
        },
        Expr::TAbs(TAbs { param, param_ty, body, range }) => match renamed_kind(names, param_ty) {
            Err(e) => (Err(e), count),
            Ok(param_ty) => if count >= usize::MAX {
                (Err(TypeError::BudgetExceeded), count)
            } else {
                let p = fresh(param, count);
                let (b, c) = renamed_expr(names.push(p), count + 1, *body);
                match b {
                    Err(e) => (Err(e), c),
                    Ok(body) => (Ok(Expr::TAbs(TAbs { param: p, param_ty, body: Box::new(body), range })), c),
                }
            },
        },
        Expr::LetAlias(LetAlias { name, value, body, range }) => {
            let (v, c1) = renamed_expr(names, count, *value);
            match v {
                Err(e) => (Err(e), c1),
                Ok(value) => if c1 >= usize::MAX {
                    (Err(TypeError::BudgetExceeded), c1)
                } else {
                    let n = fresh(name, c1);
                    let (b, c2) = renamed_expr(names.push(n), c1 + 1, *body);
                    match b {
                        Err(e) => (Err(e), c2),
                        Ok(body) => (Ok(Expr::LetAlias(LetAlias { name: n, value: Box::new(value), body: Box::new(body), range })), c2),
                    }
                },
            }
        },
        Expr::TypeAlias(TypeAlias { name, value, body, range }) => {
            let (v, c1) = renamed_type(names, count, value);
            match v {
                Err(e) => (Err(e), c1),
                Ok(value) => if c1 >= usize::MAX {
                    (Err(TypeError::BudgetExceeded), c1)
                } else {
                    let n = fresh(name, c1);
                    let (b, c2) = renamed_expr(names.push(n), c1 + 1, *body);
                    match b {
                        Err(e) => (Err(e), c2),
                        Ok(body) => (Ok(Expr::TypeAlias(TypeAlias { name: n, value, body: Box::new(body), range })), c2),
                    }
                },
            }
        },
        Expr::KindAlias(KindAlias { name, value, body, range }) => match renamed_kind(names, value) {
            Err(e) => (Err(e), count),
            Ok(value) => if count >= usize::MAX {
                (Err(TypeError::BudgetExceeded), count)
            } else {
                let n = fresh(name, count);
                let (b, c) = renamed_expr(names.push(n), count + 1, *body);
                match b {
                    Err(e) => (Err(e), c),
                    Ok(body) => (Ok(Expr::KindAlias(KindAlias { name: n, value, body: Box::new(body), range })), c),
                }
            },
        },
        Expr::Anno(Anno { expr, anno, range }) => {
            let (x, c1) = renamed_expr(names, count, *expr);
            match x {
                Err(e) => (Err(e), c1),
                Ok(expr) => {
                    let (a, c2) = renamed_type(names, c1, anno);
                    match a {
                        Err(e) => (Err(e), c2),
                        Ok(anno) => (Ok(Expr::Anno(Anno { expr: Box::new(expr), anno, range })), c2),
                    }
                },
            }
        },
    }
}

impl Names {
    pub fn new() -> (r: Names)
        ensures
            r.names@ == Seq::<Symbol>::empty(),
            r.count == 0,
    {
        Names { names: Vec::new(), count: 0 }
    }

    /// Brings a fresh identifier for `name` into scope and returns it.
    pub fn rename(&mut self, name: &Symbol) -> (r: Symbol)
        requires
            old(self).count < usize::MAX,
        ensures
            r == fresh(*name, old(self).count as nat),
            final(self).count == old(self).count + 1,
            final(self).names@ == old(self).names@.push(r),
    {
        let new_ident = Symbol { id: self.count, name: name.name.clone() };
        self.count = self.count + 1;
        self.names.push(new_ident.clone());
        new_ident
    }
}

fn lookup_name(context: &Names, s: &Symbol) -> (r: Result<Symbol, TypeError>)
    ensures
        r == resolved(context.names@, *s),
{
    let mut i: usize = context.names.len();
    assert(context.names@.take(i as int) =~= context.names@);
    while i > 0
        invariant
            i <= context.names@.len(),
            resolve(context.names@, s.name@) == resolve(context.names@.take(i as int), s.name@),
        decreases i,
    {
        let prefix = Ghost(context.names@.take(i as int));
        assert(prefix@.drop_last() =~= context.names@.take(i - 1));
        if context.names[i - 1].name == s.name {
            return Ok(context.names[i - 1].clone());
        }
        i = i - 1;
    }
    Err(TypeError::UndefinedVariable(s.name.clone()))
}

fn alpha_conversion_kind(context: &Names, k: &Kind) -> (r: Result<Kind, TypeError>)
    ensures
        r == renamed_kind(context.names@, *k),
    decreases k,
{
    match k {
        Kind::Star(_) => Ok(Kind::Star(Star {  })),
        Kind::KindVar(KindVar { value }) => match lookup_name(context, value) {
            Err(e) => Err(e),
            Ok(value) => Ok(Kind::KindVar(KindVar { value })),
        },
        Kind::KindArrow(KindArrow { left, right }) => {
            let left = match alpha_conversion_kind(context, left) {
                Err(e) => return Err(e),
                Ok(l) => l,
            };
            let right = match alpha_conversion_kind(context, right) {
                Err(e) => return Err(e),
                Ok(r) => r,
            };
            Ok(Kind::KindArrow(KindArrow { left: Box::new(left), right: Box::new(right) }))
        },
    }
}

pub fn alpha_conversion_type(context: &mut Names, ty: &Type) -> (r: Result<Type, TypeError>)
    ensures
        (r, final(context).count as nat) == renamed_type(old(context).names@, old(context).count as nat, *ty),
        final(context).names@ == old(context).names@,
    decreases ty,
{
    match ty {
        Type::TInt(_) => Ok(Type::TInt(TInt {  })),
        Type::TVar(TVar { value }) => match lookup_name(context, value) {
            Err(e) => Err(e),
            Ok(value) => Ok(Type::TVar(TVar { value })),
        },
        Type::Arrow(Arrow { left, right }) => {
            let left = match alpha_conversion_type(context, left) {
                Err(e) => return Err(e),
                Ok(l) => l,
            };
            let right = match alpha_conversion_type(context, right) {
                Err(e) => return Err(e),
                Ok(r) => r,
            };
            Ok(Type::Arrow(Arrow { left: Box::new(left), right: Box::new(right) }))
        },
        Type::Forall(Forall { param, param_ty, body }) => {
            let param_ty = match alpha_conversion_kind(context, param_ty) {
                Err(e) => return Err(e),
                Ok(k) => k,
            };
            if context.count == usize::MAX {
                return Err(TypeError::BudgetExceeded);
            }
            let saved = context.names.len();
            let param = context.rename(param);
            let body = alpha_conversion_type(context, body);
            context.names.truncate(saved);
            assert(context.names@ =~= old(context).names@);
            match body {
                Err(e) => Err(e),
                Ok(body) => Ok(Type::Forall(Forall { param, param_ty, body: Box::new(body) })),
            }
        },
        Type::TyAbs(TyAbs { param, param_ty, body }) => {
            let param_ty = match alpha_conversion_kind(context, param_ty) {
                Err(e) => return Err(e),
                Ok(k) => k,
            };
            if context.count == usize::MAX {
                return Err(TypeError::BudgetExceeded);
            }
            let saved = context.names.len();
            let param = context.rename(param);
            let body = alpha_conversion_type(context, body);
            context.names.truncate(saved);
            assert(context.names@ =~= old(context).names@);
            match body {
                Err(e) => Err(e),
                Ok(body) => Ok(Type::TyAbs(TyAbs { param, param_ty, body: Box::new(body) })),
            }
        },
        Type::TyApp(TyApp { lambda, argm }) => {
            let lambda = match alpha_conversion_type(context, lambda) {
                Err(e) => return Err(e),
                Ok(l) => l,
            };
            let argm = match alpha_conversion_type(context, argm) {
                Err(e) => return Err(e),
                Ok(a) => a,
            };
            Ok(Type::TyApp(TyApp { lambda: Box::new(lambda), argm: Box::new(argm) }))
        },
        Type::TyAnno(TyAnno { ty, anno }) => {
            let ty = match alpha_conversion_type(context, ty) {
                Err(e) => return Err(e),
                Ok(t) => t,
            };
            match alpha_conversion_kind(context, anno) {
                Err(e) => Err(e),
                Ok(anno) => Ok(Type::TyAnno(TyAnno { ty: Box::new(ty), anno })),
            }
        },
    }
}

/// Runs `alpha_conversion_expr` on a body with `name` freshly bound, then takes the binding
/// out of scope again.
fn convert_in_scope(context: &mut Names, name: &Symbol, body: &Expr) -> (r: (Symbol, Result<Expr, TypeError>))
    requires
        old(context).count < usize::MAX,
    ensures
        r.0 == fresh(*name, old(context).count as nat),
        (r.1, final(context).count as nat) == renamed_expr(
            old(context).names@.push(r.0),
            (old(context).count + 1) as nat,
            *body,
        ),
        final(context).names@ == old(context).names@,
    decreases body, 1nat,
{
    let saved = context.names.len();
    let fresh_name = context.rename(name);
    let body = alpha_conversion_expr(context, body);
    context.names.truncate(saved);
    assert(context.names@ =~= old(context).names@);
    (fresh_name, body)
}

pub fn alpha_conversion_expr(context: &mut Names, ex: &Expr) -> (r: Result<Expr, TypeError>)
    ensures
        (r, final(context).count as nat) == renamed_expr(old(context).names@, old(context).count as nat, *ex),
        final(context).names@ == old(context).names@,
    decreases ex, 0nat,
{
    match ex {
        Expr::Int(Int { value, range }) => Ok(Expr::Int(Int { value: *value, range: *range })),
        Expr::Var(Var { value, range }) => match lookup_name(context, value) {
            Err(e) => Err(e),
            Ok(value) => Ok(Expr::Var(Var { value, range: *range })),
        },
        Expr::App(App { lambda, argm, range }) => {
            let lambda = match alpha_conversion_expr(context, lambda) {
                Err(e) => return Err(e),
                Ok(l) => l,
            };
            let argm = match alpha_conversion_expr(context, argm) {
                Err(e) => return Err(e),
                Ok(a) => a,
            };
            Ok(Expr::App(App { lambda: Box::new(lambda), argm: Box::new(argm), range: *range }))
        },
        Expr::Abs(Abs { param, body, param_ty, range }) => {
            let param_ty = match alpha_conversion_type(context, param_ty) {
                Err(e) => return Err(e),
                Ok(t) => t,
            };
            if context.count == usize::MAX {
                return Err(TypeError::BudgetExceeded);
            }
            let (param, body) = convert_in_scope(context, param, body);
            match body {
                Err(e) => Err(e),
                Ok(body) => Ok(Expr::Abs(Abs { param, param_ty, body: Box::new(body), range: *range })),
            }
        },
        Expr::TApp(TApp { lambda, argm, range }) => {
            let lambda = match alpha_conversion_expr(context, lambda) {
                Err(e) => return Err(e),
                Ok(l) => l,
            };
            let argm = match alpha_conversion_type(context, argm) {
                Err(e) => return Err(e),
                Ok(a) => a,
            };
            Ok(Expr::TApp(TApp { lambda: Box::new(lambda), argm, range: *range }))
        },
        Expr::TAbs(TAbs { param, param_ty, body, range }) => {
            let param_ty = match alpha_conversion_kind(context, param_ty) {
                Err(e) => return Err(e),
                Ok(k) => k,
            };
            if context.count == usize::MAX {
                return Err(TypeError::BudgetExceeded);
            }
            let (param, body) = convert_in_scope(context, param, body);
            match body {
                Err(e) => Err(e),
                Ok(body) => Ok(Expr::TAbs(TAbs { param, param_ty, body: Box::new(body), range: *range })),
            }
        },
        Expr::LetAlias(LetAlias { name, value, body, range }) => {
            let value = match alpha_conversion_expr(context, value) {
                Err(e) => return Err(e),
                Ok(v) => v,
            };
            if context.count == usize::MAX {
                return Err(TypeError::BudgetExceeded);
            }
            let (name, body) = convert_in_scope(context, name, body);
            match body {
                Err(e) => Err(e),
                Ok(body) => Ok(Expr::LetAlias(LetAlias { name, value: Box::new(value), body: Box::new(body), range: *range })),
            }
        },
        Expr::TypeAlias(TypeAlias { name, value, body, range }) => {
            let value = match alpha_conversion_type(context, value) {
                Err(e) => return Err(e),
                Ok(v) => v,
            };
            if context.count == usize::MAX {
                return Err(TypeError::BudgetExceeded);
            }
            let (name, body) = convert_in_scope(context, name, body);
            match body {
                Err(e) => Err(e),
                Ok(body) => Ok(Expr::TypeAlias(TypeAlias { name, value, body: Box::new(body), range: *range })),
            }
        },
        Expr::KindAlias(KindAlias { name, value, body, range }) => {
            let value = match alpha_conversion_kind(context, value) {
                Err(e) => return Err(e),
                Ok(v) => v,
            };
            if context.count == usize::MAX {
                return Err(TypeError::BudgetExceeded);
            }
            let (name, body) = convert_in_scope(context, name, body);
            match body {
                Err(e) => Err(e),
                Ok(body) => Ok(Expr::KindAlias(KindAlias { name, value, body: Box::new(body), range: *range })),
            }
        },
        Expr::Anno(Anno { expr, anno, range }) => {
            let expr = match alpha_conversion_expr(context, expr) {
                Err(e) => return Err(e),
                Ok(x) => x,
            };
            let anno = match alpha_conversion_type(context, anno) {
                Err(e) => return Err(e),
                Ok(a) => a,
            };
            Ok(Expr::Anno(Anno { expr: Box::new(expr), anno, range: *range }))
        },
    }
}

} // verus!
