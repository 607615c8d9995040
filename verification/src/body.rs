//! The capped body accumulator.
//!
//! A 2xx body is read as a stream of chunks. The cap is enforced while
//! streaming, not after the fact: a chunk that would carry the total past
//! [`crate::http::BODY_CAP_BYTES`] is refused whole and the read is then
//! abandoned, so no more than the cap is ever held.

use vstd::prelude::*;

use crate::http::BODY_CAP_BYTES;

verus! {

/// Accumulates body chunks while the total stays within the cap.
pub struct BodyBuffer {
    data: Vec<u8>,
}

impl View for BodyBuffer {
    type V = Seq<u8>;

    closed spec fn view(&self) -> Seq<u8> {
        self.data@
    }
}

impl BodyBuffer {
    /// The buffer never holds more than the cap.
    pub open spec fn wf(&self) -> bool {
        self@.len() <= BODY_CAP_BYTES
    }

    /// An empty buffer.
    pub fn new() -> (b: BodyBuffer)
        ensures
            b@ == Seq::<u8>::empty(),
            b.wf(),
    {
        BodyBuffer { data: Vec::new() }
    }

    /// How many bytes have been accumulated.
    pub fn len(&self) -> (n: usize)
        ensures
            n == self@.len(),
    {
        self.data.len()
    }

    /// Appends one chunk, in full, unless doing so would carry the total
    /// past the cap; a refused chunk leaves the buffer untouched.
    pub fn push_chunk(&mut self, chunk: &[u8]) -> (ok: bool)
        requires
            old(self).wf(),
        ensures
            final(self).wf(),
            ok == (old(self)@.len() + chunk@.len() <= BODY_CAP_BYTES),
            ok ==> final(self)@ == old(self)@ + chunk@,
            !ok ==> final(self)@ == old(self)@,
    {
        if chunk.len() <= BODY_CAP_BYTES - self.data.len() {
            let ghost pre: Seq<u8> = self.data@;
            let n = chunk.len();
            let mut i: usize = 0;
            while i < n
                invariant
                    i <= n,
                    n == chunk@.len(),
                    self.data@ == pre + chunk@.subrange(0, i as int),
                    pre.len() + n <= BODY_CAP_BYTES,
                decreases n - i,
            {
                self.data.push(chunk[i]);
                proof {
                    assert(pre + chunk@.subrange(0, i as int) + seq![chunk@[i as int]] =~= pre
                        + chunk@.subrange(0, i as int + 1));
                }
                i = i + 1;
            }
            proof {
                assert(chunk@.subrange(0, n as int) =~= chunk@);
            }
            true
        } else {
            false
        }
    }

    /// Hands the accumulated bytes out.
    pub fn into_bytes(self) -> (v: Vec<u8>)
        ensures
            v@ == self@,
    {
        self.data
    }
}

} // verus!
