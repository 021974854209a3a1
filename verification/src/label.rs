//! Labels: forward and backward references to code offsets.
//!
//! A branch to a label that is already bound is emitted with its final
//! offset. A branch to a label that is not bound yet is emitted with offset
//! zero and recorded as a fixup; binding the label fills in every recorded
//! offset.

use vstd::prelude::*;

verus! {

/// Which offset field a fixup fills in.
#[derive(Debug, Clone, Copy, PartialEq, Eq, Structural)]
pub enum FixupKind {
    /// 26-bit word offset in bits [25:0] (`B`/`BL`).
    Branch26,
    /// 19-bit word offset in bits [23:5] (`B.cond`/`CBZ`/`CBNZ`).
    Imm19At5,
}

/// A code label.
#[derive(Debug)]
pub struct Label {
    offset: Option<usize>,
    fixups: Vec<(usize, FixupKind)>,
}

impl Label {
    /// The byte offset the label is bound to, if it is bound.
    pub closed spec fn target(&self) -> Option<usize> {
        self.offset
    }

    /// The branches waiting for the label: the byte offset of each branch
    /// and the field its offset goes into, in the order they were emitted.
    pub closed spec fn pending(&self) -> Seq<(usize, FixupKind)> {
        self.fixups@
    }

    /// An unbound label with no pending branches.
    pub fn new() -> (r: Self)
        ensures
            r.target() is None,
            r.pending() == Seq::<(usize, FixupKind)>::empty(),
    {
        Label { offset: None, fixups: Vec::new() }
    }

    /// The bound offset, or `None` if not yet bound.
    pub fn offset(&self) -> (r: Option<usize>)
        ensures
            r == self.target(),
    {
        self.offset
    }

    /// True if already bound.
    pub fn is_bound(&self) -> (r: bool)
        ensures
            r == self.target() is Some,
    {
        self.offset.is_some()
    }

    /// The pending branch at position `i`.
    pub(crate) fn fixup(&self, i: usize) -> (r: (usize, FixupKind))
        requires
            i < self.pending().len(),
        ensures
            r == self.pending()[i as int],
    {
        self.fixups[i]
    }

    /// Number of pending branches.
    pub(crate) fn fixup_count(&self) -> (r: usize)
        ensures
            r == self.pending().len(),
    {
        self.fixups.len()
    }

    /// Binds the label to `offset` and hands back the branches that were
    /// waiting for it, in the order they were recorded.
    pub(crate) fn bind(&mut self, offset: usize) -> (r: Vec<(usize, FixupKind)>)
        requires
            old(self).target() is None,
        ensures
            r@ == old(self).pending(),
            final(self).target() == Some(offset),
            final(self).pending() == Seq::<(usize, FixupKind)>::empty(),
    {
        let mut taken: Vec<(usize, FixupKind)> = Vec::new();
        std::mem::swap(&mut taken, &mut self.fixups);
        self.offset = Some(offset);
        taken
    }

    /// Records a pending branch at byte offset `at_offset`.
    pub(crate) fn add_fixup(&mut self, at_offset: usize, kind: FixupKind)
        ensures
            final(self).target() == old(self).target(),
            final(self).pending() == old(self).pending().push((at_offset, kind)),
    {
        self.fixups.push((at_offset, kind));
    }
}

impl Default for Label {
    /// An unbound label with no pending branches.
    fn default() -> (r: Self)
        ensures
            r.target() is None,
            r.pending() == Seq::<(usize, FixupKind)>::empty(),
    {
        Label::new()
    }
}

} // verus!
