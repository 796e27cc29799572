//! The byte sink the encoders write into: an in-memory buffer with a hard
//! capacity, whose write-all primitive either appends every byte or fails
//! and leaves the sink unchanged.

use vstd::prelude::*;

verus! {

use crate::WireError;

/// A byte sink. `sink@` is the byte string written so far; `sink.cap()` is
/// the most bytes the sink will ever hold, fixed at construction.
pub struct ByteSink {
    buf: Vec<u8>,
    cap: usize,
}

impl View for ByteSink {
    type V = Seq<u8>;

    closed spec fn view(&self) -> Seq<u8> {
        self.buf@
    }
}

/// What one encode call did to a sink: the capacity is untouched, the old
/// contents are kept as a prefix, and the call succeeded exactly when the
/// whole byte string fit, in which case it now stands appended.
pub open spec fn wrote(
    pre: ByteSink,
    post: ByteSink,
    r: Result<(), WireError>,
    bytes: Seq<u8>,
) -> bool {
    &&& post.wf()
    &&& post.cap() == pre.cap()
    &&& pre@.is_prefix_of(post@)
    &&& (r is Ok <==> pre@.len() + bytes.len() <= pre.cap())
    &&& (r is Ok ==> post@ == pre@ + bytes)
}

impl ByteSink {
    pub closed spec fn cap(&self) -> nat {
        self.cap as nat
    }

    pub open spec fn wf(&self) -> bool {
        self@.len() <= self.cap()
    }

    /// An unbounded sink (bounded only by the address space).
    pub fn new() -> (s: ByteSink)
        ensures
            s@ == Seq::<u8>::empty(),
            s.cap() == usize::MAX,
            s.wf(),
    {
        ByteSink { buf: Vec::new(), cap: usize::MAX }
    }

    /// A sink that rejects any write that would take it past `limit` bytes.
    pub fn with_limit(limit: usize) -> (s: ByteSink)
        ensures
            s@ == Seq::<u8>::empty(),
            s.cap() == limit,
            s.wf(),
    {
        ByteSink { buf: Vec::new(), cap: limit }
    }

    /// Appends all of `bytes`, or rejects the write whole: a failed write
    /// leaves the sink exactly as it was.
    pub fn write_all(&mut self, bytes: &Vec<u8>) -> (r: Result<(), WireError>)
        requires
            old(self).wf(),
        ensures
            wrote(*old(self), *final(self), r, bytes@),
            r is Err ==> *final(self) == *old(self) && r == Err::<(), WireError>(
                WireError::SinkFull,
            ),
    {
        if bytes.len() <= self.cap - self.buf.len() {
            let n = bytes.len();
            let mut i: usize = 0;
            while i < n
                invariant
                    i <= n,
                    n == bytes@.len(),
                    self.buf@ == old(self).buf@ + bytes@.take(i as int),
                    self.cap == old(self).cap,
                    old(self).buf@.len() + n <= self.cap as nat,
                decreases n - i,
            {
                let ghost prev = self.buf@;
                self.buf.push(bytes[i]);
                proof {
                    assert(prev + seq![bytes@[i as int]] =~= old(self).buf@ + bytes@.take(
                        i as int + 1,
                    ));
                }
                i = i + 1;
            }
            proof {
                assert(bytes@.take(n as int) =~= bytes@);
            }
            Ok(())
        } else {
            Err(WireError::SinkFull)
        }
    }

    /// The bytes written so far, surrendering the sink.
    pub fn into_vec(self) -> (v: Vec<u8>)
        ensures
            v@ == self@,
    {
        self.buf
    }

    /// How many bytes have been written so far.
    pub fn len(&self) -> (n: usize)
        ensures
            n as nat == self@.len(),
    {
        self.buf.len()
    }
}

} // verus!
