//! Sequential reader over an immutable byte buffer.
//!
//! All bounds checking of the response decoder is concentrated here: a read
//! either yields exactly the requested bytes and advances the offset, or
//! yields nothing and leaves the offset where it was.

use vstd::prelude::*;
use vstd::slice::{slice_index_get, slice_subrange};

verus! {

/// A read offset over a borrowed byte buffer.
pub struct BufferReader<'a> {
    buffer: &'a [u8],
    pos: usize,
}

impl<'a> BufferReader<'a> {
    /// The whole underlying buffer, as a sequence.
    pub closed spec fn spec_buffer(self) -> Seq<u8> {
        self.buffer@
    }

    /// The current read offset.
    pub closed spec fn spec_pos(self) -> int {
        self.pos as int
    }

    /// The offset never runs past the end of the buffer.
    pub open spec fn wf(self) -> bool {
        0 <= self.spec_pos() <= self.spec_buffer().len()
    }

    /// A fresh reader positioned at the start of `buffer`.
    pub fn new(buffer: &'a [u8]) -> (r: Self)
        ensures
            r.wf(),
            r.spec_buffer() == buffer@,
            r.spec_pos() == 0,
    {
        BufferReader { buffer, pos: 0 }
    }

    /// Reads the next `n` bytes and advances the offset, or returns `None`
    /// (leaving the offset unchanged) when fewer than `n` bytes remain.
    pub fn read_array(&mut self, n: usize) -> (r: Option<Vec<u8>>)
        requires
            old(self).wf(),
        ensures
            final(self).wf(),
            final(self).spec_buffer() == old(self).spec_buffer(),
            old(self).spec_pos() + n <= old(self).spec_buffer().len() ==> ({
                &&& r matches Some(v) && v@ == old(self).spec_buffer().subrange(
                    old(self).spec_pos(),
                    old(self).spec_pos() + n,
                )
                &&& final(self).spec_pos() == old(self).spec_pos() + n
            }),
            old(self).spec_pos() + n > old(self).spec_buffer().len() ==> ({
                &&& r is None
                &&& final(self).spec_pos() == old(self).spec_pos()
            }),
    {
        if n <= self.buffer.len() - self.pos {
            let mut v: Vec<u8> = Vec::new();
            let mut i: usize = 0;
            while i < n
                invariant
                    0 <= i <= n,
                    self.pos + n <= self.buffer@.len(),
                    self.buffer@.len() <= usize::MAX,
                    v@ == self.buffer@.subrange(self.pos as int, self.pos + i),
                decreases n - i,
            {
                v.push(*slice_index_get(self.buffer, self.pos + i));
                i = i + 1;
                proof {
                    assert(v@ =~= self.buffer@.subrange(self.pos as int, self.pos + i));
                }
            }
            self.pos = self.pos + n;
            Some(v)
        } else {
            None
        }
    }

    /// The unread tail of the buffer, without advancing the offset.
    pub fn get_buffer(&self) -> (r: &'a [u8])
        requires
            self.wf(),
        ensures
            r@ == self.spec_buffer().subrange(self.spec_pos(), self.spec_buffer().len() as int),
    {
        slice_subrange(self.buffer, self.pos, self.buffer.len())
    }
}

} // verus!
