//! A bounded cursor over a byte region.
//!
//! A `PartialBuffer` pairs a byte region with a single position `pos`.
//! The prefix `[0, pos)` is what has already been written (for an output
//! region) or consumed (for an input region) during the current logical
//! pass; the suffix `[pos, len)` is the capacity still available.
//! `advance` is the only mutator; it never moves the position past the end
//! of the region.

use vstd::prelude::*;

verus! {

/// A byte region together with a cursor position. The region itself never
/// grows or shrinks; only the position moves, and only forward.
pub struct PartialBuffer {
    /// The whole region.
    pub buf: Vec<u8>,
    /// How much of the region has been consumed (input) or filled (output).
    pub pos: usize,
}

impl PartialBuffer {
    /// Well-formedness: the cursor never points past the end of the region.
    pub open spec fn inv(&self) -> bool {
        self.pos <= self.buf@.len()
    }

    /// Wraps a region; the cursor starts at the beginning.
    pub fn new(data: Vec<u8>) -> (r: Self)
        ensures
            r.inv(),
            r.pos == 0,
            r.buf == data,
    {
        PartialBuffer { buf: data, pos: 0 }
    }

    /// Length of the whole region.
    pub fn capacity(&self) -> (r: usize)
        ensures
            r == self.buf@.len(),
    {
        self.buf.len()
    }

    /// Length of the prefix already consumed or filled.
    pub fn written_len(&self) -> (r: usize)
        ensures
            r == self.pos,
    {
        self.pos
    }

    /// Length of the capacity still available.
    pub fn unwritten_len(&self) -> (r: usize)
        requires
            self.inv(),
        ensures
            r == self.buf@.len() - self.pos,
    {
        self.buf.len() - self.pos
    }

    /// Moves the cursor forward by `n`. Asking for more than the remaining
    /// capacity is a programming-contract error, so it is ruled out here
    /// rather than handled at run time.
    pub fn advance(&mut self, n: usize)
        requires
            old(self).inv(),
            old(self).pos + n <= old(self).buf@.len(),
        ensures
            final(self).inv(),
            final(self).pos == old(self).pos + n,
            final(self).buf == old(self).buf,
    {
        let cap: usize = self.buf.len();
        assert(self.pos + n <= cap);
        self.pos = self.pos + n;
    }

    /// Gives back the consumed/filled prefix `[0, pos)` as its own vector.
    pub fn into_written(self) -> (r: Vec<u8>)
        requires
            self.inv(),
        ensures
            r@ == self.buf@.subrange(0, self.pos as int),
    {
        let mut v = self.buf;
        v.truncate(self.pos);
        v
    }
}

/// Cursor accounting: however the cursor has been advanced, the consumed
/// prefix and the remaining capacity always partition the whole region, so
/// their lengths always sum to the region's length.
pub proof fn lemma_cursor_accounting(b: PartialBuffer)
    requires
        b.inv(),
    ensures
        b.pos + (b.buf@.len() - b.pos) == b.buf@.len(),
        b.buf@.subrange(0, b.pos as int) + b.buf@.subrange(b.pos as int, b.buf@.len() as int)
            == b.buf@,
{
    assert(b.buf@.subrange(0, b.pos as int) + b.buf@.subrange(b.pos as int, b.buf@.len() as int)
        =~= b.buf@);
}

} // verus!
