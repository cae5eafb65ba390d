//! Exact-length writes over a stream that may accept fewer bytes than
//! offered.
//!
//! [`ExactWrite`] tracks how much of a buffer has been handed to the stream.
//! The caller offers the unwritten tail, reports how many bytes the stream
//! took, and repeats until nothing remains. A stream that takes zero bytes
//! without failing would make that loop spin forever, so a zero-byte write
//! before completion is rejected as a stalled stream rather than retried.

use vstd::prelude::*;

verus! {

/// Progress of one exact-length write of `total` bytes.
pub struct ExactWrite {
    written: usize,
    total: usize,
}

impl ExactWrite {
    /// How many bytes have been handed to the stream so far.
    pub closed spec fn written(self) -> nat {
        self.written as nat
    }

    /// How many bytes the whole buffer holds.
    pub closed spec fn total(self) -> nat {
        self.total as nat
    }

    /// Internal soundness: progress never passes the end of the buffer.
    pub closed spec fn inv(self) -> bool {
        self.written <= self.total
    }

    /// The whole buffer has been handed over.
    pub open spec fn done(self) -> bool {
        self.written() == self.total()
    }

    /// How many bytes still have to be written.
    pub open spec fn missing(self) -> nat
        recommends
            self.inv(),
    {
        (self.total() - self.written()) as nat
    }

    /// Begin writing a buffer of `total` bytes.
    pub fn new(total: usize) -> (r: ExactWrite)
        ensures
            r.inv(),
            r.written() == 0,
            r.total() == total,
    {
        ExactWrite { written: 0, total }
    }

    /// Where the unwritten tail of the buffer starts.
    pub fn offset(&self) -> (k: usize)
        ensures
            k == self.written(),
    {
        self.written
    }

    /// How many bytes the caller should still offer the stream.
    pub fn needed(&self) -> (k: usize)
        requires
            self.inv(),
        ensures
            k == self.missing(),
    {
        self.total - self.written
    }

    /// Whether the write is complete.
    pub fn is_done(&self) -> (b: bool)
        requires
            self.inv(),
        ensures
            b == self.done(),
    {
        self.written == self.total
    }

    /// Record the byte count one stream write reported. Returns false for a
    /// zero-byte write while bytes remain: such a stream has stalled, and
    /// the caller must abort instead of offering the same bytes forever.
    pub fn record(&mut self, k: usize) -> (ok: bool)
        requires
            old(self).inv(),
            k <= old(self).missing(),
        ensures
            final(self).inv(),
            final(self).total() == old(self).total(),
            final(self).written() == old(self).written() + k,
            ok == !(k == 0 && !old(self).done()),
    {
        self.written = self.written + k;
        k > 0 || self.written == self.total
    }
}

} // verus!
