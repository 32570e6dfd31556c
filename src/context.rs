use vstd::prelude::*;

use crate::errors::TypeError;
use crate::parsetree::{copy_expr, copy_kind, copy_type, Expr, Kind, Type};
use crate::symbol::{same_symbol, Symbol};
use crate::typedtree as T;

verus! {

/// What the expression namespace binds an identifier to.
#[derive(Debug)]
pub enum ContextExpr {
    /// An elaborated type.
    Value(T::Annoted),
    /// An expression whose type is derived anew at each reference.
    Alias(Expr),
}

/// What the type namespace binds an identifier to.
#[derive(Debug)]
pub enum ContextType {
    /// An elaborated kind.
    Value(T::Kind),
    /// A surface type that is elaborated anew at each reference.
    Alias(Type),
}

/// The checking environment: one table per namespace, later entries shadowing earlier ones.
#[derive(Debug)]
pub struct Context {
    pub exprs: Vec<(Symbol, ContextExpr)>,
    pub types: Vec<(Symbol, ContextType)>,
    pub kinds: Vec<(Symbol, Kind)>,
}

/// The mathematical model of a context.
pub struct Scope {
    pub exprs: Seq<(Symbol, ContextExpr)>,
    pub types: Seq<(Symbol, ContextType)>,
    pub kinds: Seq<(Symbol, Kind)>,
}

impl View for Context {
    type V = Scope;

    open spec fn view(&self) -> Scope {
        Scope { exprs: self.exprs@, types: self.types@, kinds: self.kinds@ }
    }
}

impl Scope {
    pub open spec fn empty() -> Scope {
        Scope { exprs: Seq::empty(), types: Seq::empty(), kinds: Seq::empty() }
    }

    pub open spec fn with_expr(self, key: Symbol, v: ContextExpr) -> Scope {
        Scope { exprs: self.exprs.push((key, v)), ..self }
    }

    pub open spec fn with_type(self, key: Symbol, v: ContextType) -> Scope {
        Scope { types: self.types.push((key, v)), ..self }
    }

    pub open spec fn with_kind(self, key: Symbol, v: Kind) -> Scope {
        Scope { kinds: self.kinds.push((key, v)), ..self }
    }
}

/// The value of the latest entry whose key denotes `key`.
pub open spec fn lookup<V>(entries: Seq<(Symbol, V)>, key: Symbol) -> Option<V>
    decreases entries.len(),
{
    if entries.len() == 0 {
        None
    } else if same_symbol(entries.last().0, key) {
        Some(entries.last().1)
    } else {
        lookup(entries.drop_last(), key)
    }
}

/// The result of a lookup, with `UndefinedVariable` for an unbound identifier.
pub open spec fn found<V>(entries: Seq<(Symbol, V)>, key: Symbol) -> Result<V, TypeError> {
    match lookup(entries, key) {
        Some(v) => Ok(v),
        None => Err(TypeError::UndefinedVariable(key.name)),
    }
}

/// The index of the latest entry whose key denotes `key`.
fn find_last<V>(entries: &Vec<(Symbol, V)>, key: &Symbol) -> (r: Option<usize>)
    ensures
        match r {
            Some(i) => i < entries@.len() && lookup(entries@, *key) == Some(entries@[i as int].1),
            None => lookup(entries@, *key) is None,
        },
{
    let mut i: usize = entries.len();
    assert(entries@.take(i as int) =~= entries@);
    while i > 0
        invariant
            i <= entries@.len(),
            lookup(entries@, *key) == lookup(entries@.take(i as int), *key),
        decreases i,
    {
        let prefix = Ghost(entries@.take(i as int));
        assert(prefix@.last() == entries@[i - 1]);
        assert(prefix@.drop_last() =~= entries@.take(i - 1));
        if entries[i - 1].0 == *key {
            return Some(i - 1);
        }
        i = i - 1;
    }
    None
}

fn copy_expr_entry(e: &ContextExpr) -> (r: ContextExpr)
    ensures
        r == *e,
{
    match e {
        ContextExpr::Value(t) => ContextExpr::Value(T::copy_annoted(t)),
        ContextExpr::Alias(x) => ContextExpr::Alias(copy_expr(x)),
    }
}

fn copy_type_entry(e: &ContextType) -> (r: ContextType)
    ensures
        r == *e,
{
    match e {
        ContextType::Value(k) => ContextType::Value(T::copy_kind(k)),
        ContextType::Alias(t) => ContextType::Alias(copy_type(t)),
    }
}

impl Clone for ContextExpr {
    fn clone(&self) -> (r: ContextExpr)
        ensures
            r == *self,
    {
        copy_expr_entry(self)
    }
}

impl Clone for ContextType {
    fn clone(&self) -> (r: ContextType)
        ensures
            r == *self,
    {
        copy_type_entry(self)
    }
}

impl Clone for Context {
    fn clone(&self) -> (r: Context)
        ensures
            r@ == self@,
    {
        let mut exprs: Vec<(Symbol, ContextExpr)> = Vec::new();
        let mut i: usize = 0;
        while i < self.exprs.len()
            invariant
                i <= self.exprs@.len(),
                exprs@ == self.exprs@.take(i as int),
            decreases self.exprs@.len() - i,
        {
            let e = &self.exprs[i];
            exprs.push((e.0.clone(), copy_expr_entry(&e.1)));
            assert(exprs@ =~= self.exprs@.take(i + 1));
            i = i + 1;
        }
        let mut types: Vec<(Symbol, ContextType)> = Vec::new();
        let mut i: usize = 0;
        while i < self.types.len()
            invariant
                i <= self.types@.len(),
                types@ == self.types@.take(i as int),
            decreases self.types@.len() - i,
        {
            let e = &self.types[i];
            types.push((e.0.clone(), copy_type_entry(&e.1)));
            assert(types@ =~= self.types@.take(i + 1));
            i = i + 1;
        }
        let mut kinds: Vec<(Symbol, Kind)> = Vec::new();
        let mut i: usize = 0;
        while i < self.kinds.len()
            invariant
                i <= self.kinds@.len(),
                kinds@ == self.kinds@.take(i as int),
            decreases self.kinds@.len() - i,
        {
            let e = &self.kinds[i];
            kinds.push((e.0.clone(), copy_kind(&e.1)));
            assert(kinds@ =~= self.kinds@.take(i + 1));
            i = i + 1;
        }
        assert(exprs@ =~= self.exprs@);
        assert(types@ =~= self.types@);
        assert(kinds@ =~= self.kinds@);
        Context { exprs, types, kinds }
    }
}

impl Context {
    /// The empty context.
    pub fn new() -> (r: Context)
        ensures
            r@ == Scope::empty(),
    {
        let r = Context { exprs: Vec::new(), types: Vec::new(), kinds: Vec::new() };
        assert(r@.exprs =~= Seq::empty());
        assert(r@.types =~= Seq::empty());
        assert(r@.kinds =~= Seq::empty());
        r
    }

    pub fn get_expr(&self, key: &Symbol) -> (r: Result<ContextExpr, TypeError>)
        ensures
            r == found(self@.exprs, *key),
    {
        match find_last(&self.exprs, key) {
            Some(i) => Ok(copy_expr_entry(&self.exprs[i].1)),
            None => Err(TypeError::UndefinedVariable(key.name.clone())),
        }
    }

    pub fn add_expr(&mut self, key: &Symbol, expr: T::Annoted)
        ensures
            final(self)@ == old(self)@.with_expr(*key, ContextExpr::Value(expr)),
    {
        self.exprs.push((key.clone(), ContextExpr::Value(expr)));
    }

    pub fn add_expr_alias(&mut self, key: &Symbol, expr: Expr)
        ensures
            final(self)@ == old(self)@.with_expr(*key, ContextExpr::Alias(expr)),
    {
        self.exprs.push((key.clone(), ContextExpr::Alias(expr)));
    }

    pub fn add_type(&mut self, key: &Symbol, expr: T::Kind)
        ensures
            final(self)@ == old(self)@.with_type(*key, ContextType::Value(expr)),
    {
        self.types.push((key.clone(), ContextType::Value(expr)));
    }

    pub fn add_type_alias(&mut self, key: &Symbol, expr: Type)
        ensures
            final(self)@ == old(self)@.with_type(*key, ContextType::Alias(expr)),
    {
        self.types.push((key.clone(), ContextType::Alias(expr)));
    }

    pub fn add_kind_alias(&mut self, key: &Symbol, expr: Kind)
        ensures
            final(self)@ == old(self)@.with_kind(*key, expr),
    {
        self.kinds.push((key.clone(), expr));
    }

    pub fn get_type(&self, key: &Symbol) -> (r: Result<ContextType, TypeError>)
        ensures
            r == found(self@.types, *key),
    {
        match find_last(&self.types, key) {
            Some(i) => Ok(copy_type_entry(&self.types[i].1)),
            None => Err(TypeError::UndefinedVariable(key.name.clone())),
        }
    }

    pub fn get_kind(&self, key: &Symbol) -> (r: Result<Kind, TypeError>)
        ensures
            r == found(self@.kinds, *key),
    {
        match find_last(&self.kinds, key) {
            Some(i) => Ok(copy_kind(&self.kinds[i].1)),
            None => Err(TypeError::UndefinedVariable(key.name.clone())),
        }
    }
}

impl Default for Context {
    fn default() -> (r: Context)
        ensures
            r@ == Scope::empty(),
    {
        Context::new()
    }
}

} // verus!
