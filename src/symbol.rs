use vstd::prelude::*;

verus! {

/// An identifier: a display name plus a disambiguation counter.
/// Two identifiers denote the same binding iff both fields match.
#[derive(Debug)]
pub struct Symbol {
    pub id: usize,
    pub name: String,
}

/// Two identifiers denote the same binding.
pub open spec fn same_symbol(a: Symbol, b: Symbol) -> bool {
    a.id == b.id && a.name@ == b.name@
}

impl Symbol {
    /// A fresh, not yet renamed identifier (counter 0).
    pub fn new(name: String) -> (r: Symbol)
        ensures
            r.id == 0,
            r.name == name,
    {
        Symbol { id: 0, name }
    }
}

impl Clone for Symbol {
    fn clone(&self) -> (r: Symbol)
        ensures
            r == *self,
    {
        Symbol { id: self.id, name: self.name.clone() }
    }
}

impl PartialEq for Symbol {
    fn eq(&self, other: &Symbol) -> (r: bool)
        ensures
            r == same_symbol(*self, *other),
    {
        self.id == other.id && self.name == other.name
    }
}

impl Eq for Symbol {
}

impl vstd::std_specs::cmp::PartialEqSpecImpl for Symbol {
    open spec fn obeys_eq_spec() -> bool {
        true
    }

    open spec fn eq_spec(&self, other: &Symbol) -> bool {
        same_symbol(*self, *other)
    }
}

} // verus!
