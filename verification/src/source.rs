//! An in-memory byte source with the peek/consume capability that the
//! sniffer and the decoders work over: a non-consuming view of the bytes
//! still buffered, and an explicit cursor advance past bytes already seen.

use vstd::prelude::*;
use vstd::math::min;
use vstd::slice::{slice_subrange, slice_to_vec};

verus! {

/// A byte source over an in-memory buffer: the bytes and a read cursor.
pub struct MemSource {
    pub data: Vec<u8>,
    pub pos: usize,
}

impl MemSource {
    /// The cursor never runs past the end of the buffer.
    pub open spec fn wf(self) -> bool {
        self.pos <= self.data@.len()
    }

    /// The bytes not yet consumed, in order.
    pub open spec fn remaining(self) -> Seq<u8> {
        self.data@.subrange(self.pos as int, self.data@.len() as int)
    }

    /// Wrap a buffer as a source positioned at its start.
    pub fn new(data: Vec<u8>) -> (s: MemSource)
        ensures
            s.wf(),
            s.data@ == data@,
            s.pos == 0,
            s.remaining() == data@,
    {
        let s = MemSource { data, pos: 0 };
        proof {
            assert(s.remaining() =~= s.data@);
        }
        s
    }

    /// Non-consuming peek: the window of bytes currently buffered.
    /// The source is borrowed shared, so the cursor cannot move.
    pub fn fill_buf(&self) -> (w: &[u8])
        requires
            self.wf(),
        ensures
            w@ == self.remaining(),
    {
        slice_subrange(self.data.as_slice(), self.pos, self.data.len())
    }

    /// Advance the cursor past `n` already-peeked bytes.
    pub fn consume(&mut self, n: usize)
        requires
            old(self).wf(),
            n <= old(self).remaining().len(),
        ensures
            final(self).wf(),
            final(self).data@ == old(self).data@,
            final(self).pos == old(self).pos + n,
            final(self).remaining() == old(self).remaining().skip(n as int),
    {
        let len: usize = self.data.len();
        proof {
            assert(old(self).remaining().len() == len - old(self).pos);
        }
        self.pos = self.pos + n;
        proof {
            assert(final(self).remaining() =~= old(self).remaining().skip(n as int));
        }
    }

    /// Read up to `max` bytes: copy them out and consume them.
    pub fn read(&mut self, max: usize) -> (out: Vec<u8>)
        requires
            old(self).wf(),
        ensures
            final(self).wf(),
            final(self).data@ == old(self).data@,
            out@ == old(self).remaining().take(min(max as int, old(self).remaining().len() as int)),
            final(self).remaining() == old(self).remaining().skip(out@.len() as int),
    {
        let avail: usize = self.data.len() - self.pos;
        let n: usize = if max < avail { max } else { avail };
        let w = slice_subrange(self.data.as_slice(), self.pos, self.pos + n);
        let out = slice_to_vec(w);
        proof {
            assert(out@ =~= old(self).remaining().take(n as int));
        }
        self.consume(n);
        out
    }

    /// Give the underlying buffer back, whole, wherever the cursor stands.
    pub fn into_inner(self) -> (v: Vec<u8>)
        ensures
            v@ == self.data@,
    {
        self.data
    }
}

} // verus!
