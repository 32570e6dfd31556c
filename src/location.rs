use vstd::prelude::*;

verus! {

/// A position in the source text, as a byte offset.
#[derive(Debug, Clone, Copy, PartialEq, Eq, Structural)]
pub struct Pos {
    pub index: u32,
}

impl Pos {
    pub fn new(index: u32) -> (r: Pos)
        ensures
            r.index == index,
    {
        Pos { index }
    }
}

/// A span of source text, from `start` to `end`.
#[derive(Debug, Clone, Copy, PartialEq, Eq, Structural)]
pub struct Range {
    pub start: Pos,
    pub end: Pos,
}

impl Range {
    pub fn new(start: Pos, end: Pos) -> (r: Range)
        ensures
            r.start == start,
            r.end == end,
    {
        Range { start, end }
    }

    /// The span that starts where `self` starts and ends where `end` ends.
    pub fn mix(&self, end: Range) -> (r: Range)
        ensures
            r.start == self.start,
            r.end == end.end,
    {
        Range { start: self.start, end: end.end }
    }
}

} // verus!
