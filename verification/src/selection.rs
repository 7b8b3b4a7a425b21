use vstd::prelude::*;

verus! {

/// A range of selected characters, between an anchor (`start`) and the
/// moving end (`end`). The two ends may be given in either order.
#[derive(Debug, Clone, Copy, PartialEq, Eq)]
pub struct Selection {
    pub start: u32,
    pub end: u32,
}

impl Selection {
    /// The smaller end of the selection.
    pub open spec fn lo(self) -> u32 {
        if self.start <= self.end { self.start } else { self.end }
    }

    /// The larger end of the selection.
    pub open spec fn hi(self) -> u32 {
        if self.start <= self.end { self.end } else { self.start }
    }

    /// An empty selection placed at `pos`.
    pub fn new(pos: u32) -> (s: Selection)
        ensures
            s.start == pos,
            s.end == pos,
    {
        Selection { start: pos, end: pos }
    }

    pub fn is_empty(&self) -> (b: bool)
        ensures
            b == (self.start == self.end),
    {
        self.start == self.end
    }

    pub fn min(&self) -> (m: u32)
        ensures
            m == self.lo(),
    {
        if self.start <= self.end { self.start } else { self.end }
    }

    pub fn max(&self) -> (m: u32)
        ensures
            m == self.hi(),
    {
        if self.start <= self.end { self.end } else { self.start }
    }
}

} // verus!
