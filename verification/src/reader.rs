//! Exact-length reads over a stream that may hand back fewer bytes than
//! asked for.
//!
//! [`ExactRead`] accumulates the chunks that successive stream reads
//! return until a fixed target count has arrived. The caller owns the
//! stream: it reads at most [`ExactRead::needed`] bytes, hands whatever
//! arrived to [`ExactRead::push_chunk`], and treats a zero-byte read as end
//! of stream. The contracts pin the assembled bytes to the concatenation of
//! the chunks, so the result cannot depend on how the stream fragments them.

use vstd::prelude::*;

verus! {

/// Accumulator for one exact-length read.
pub struct ExactRead {
    buf: Vec<u8>,
    target: usize,
}

impl ExactRead {
    /// The bytes accumulated so far, in arrival order.
    pub closed spec fn data(self) -> Seq<u8> {
        self.buf@
    }

    /// The total number of bytes this read must deliver.
    pub closed spec fn target(self) -> nat {
        self.target as nat
    }

    /// Internal soundness: never holds more than the target.
    pub closed spec fn inv(self) -> bool {
        self.buf@.len() <= self.target
    }

    /// All bytes have arrived.
    pub open spec fn done(self) -> bool {
        self.data().len() == self.target()
    }

    /// How many bytes are still missing.
    pub open spec fn missing(self) -> nat
        recommends
            self.inv(),
    {
        (self.target() - self.data().len()) as nat
    }

    /// Begin an exact read of `n` bytes.
    pub fn new(n: usize) -> (r: ExactRead)
        ensures
            r.inv(),
            r.data() == Seq::<u8>::empty(),
            r.target() == n,
    {
        ExactRead { buf: Vec::new(), target: n }
    }

    /// How many bytes the caller should still ask the stream for.
    pub fn needed(&self) -> (k: usize)
        requires
            self.inv(),
        ensures
            k == self.missing(),
    {
        self.target - self.buf.len()
    }

    /// Whether the read is complete.
    pub fn is_done(&self) -> (b: bool)
        requires
            self.inv(),
        ensures
            b == self.done(),
    {
        self.buf.len() == self.target
    }

    /// Whether any bytes of this unit have already arrived; decides, at end
    /// of stream, between a clean and an abrupt disconnect.
    pub fn is_started(&self) -> (b: bool)
        ensures
            b == (self.data().len() > 0),
    {
        self.buf.len() > 0
    }

    /// Absorb the bytes one stream read returned. The accumulated data
    /// afterwards is exactly the old data followed by the chunk, whatever
    /// size the stream chose for it.
    pub fn push_chunk(&mut self, chunk: &[u8])
        requires
            old(self).inv(),
            chunk@.len() <= old(self).missing(),
        ensures
            final(self).inv(),
            final(self).data() == old(self).data() + chunk@,
            final(self).target() == old(self).target(),
    {
        let mut i: usize = 0;
        proof {
            assert(self.buf@ + chunk@.subrange(0, 0) =~= self.buf@);
        }
        while i < chunk.len()
            invariant
                i <= chunk@.len(),
                self.buf@ == old(self).data() + chunk@.subrange(0, i as int),
                self.target == old(self).target(),
                self.buf@.len() <= self.target,
                chunk@.len() - i <= self.target - self.buf@.len(),
            decreases chunk@.len() - i,
        {
            self.buf.push(chunk[i]);
            i = i + 1;
            proof {
                assert(self.buf@ =~= old(self).data() + chunk@.subrange(0, i as int));
            }
        }
        proof {
            assert(chunk@.subrange(0, chunk@.len() as int) =~= chunk@);
        }
    }

    /// Surrender the assembled bytes of a completed read.
    pub fn take(self) -> (r: Vec<u8>)
        requires
            self.done(),
        ensures
            r@ == self.data(),
    {
        self.buf
    }
}

/// The data assembled after pushing each chunk in turn, starting empty:
/// the fold that [`ExactRead::push_chunk`]'s contract steps through.
pub open spec fn absorbed(chunks: Seq<Seq<u8>>) -> Seq<u8>
    decreases chunks.len(),
{
    if chunks.len() == 0 {
        Seq::<u8>::empty()
    } else {
        absorbed(chunks.drop_last()) + chunks.last()
    }
}

/// Law: assembling a sequence of chunks yields their concatenation.
pub proof fn lemma_absorbed_is_flatten(chunks: Seq<Seq<u8>>)
    ensures
        absorbed(chunks) == chunks.flatten(),
    decreases chunks.len(),
{
    chunks.lemma_flatten_and_flatten_alt_are_equivalent();
    if chunks.len() > 0 {
        lemma_absorbed_is_flatten(chunks.drop_last());
        chunks.drop_last().lemma_flatten_and_flatten_alt_are_equivalent();
    }
}

/// Law: exact-length reads do not depend on fragmentation. Two deliveries
/// of the same bytes, split into chunks in any two ways, assemble to the
/// same data.
pub proof fn lemma_fragmentation_irrelevant(c1: Seq<Seq<u8>>, c2: Seq<Seq<u8>>)
    requires
        c1.flatten() == c2.flatten(),
    ensures
        absorbed(c1) == absorbed(c2),
{
    lemma_absorbed_is_flatten(c1);
    lemma_absorbed_is_flatten(c2);
}

} // verus!
