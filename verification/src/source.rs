//! The byte source the decoders read from: an in-memory byte string with a
//! cursor, whose read-exact primitive either yields every requested byte or
//! fails on premature end of input without moving the cursor.

use vstd::prelude::*;

verus! {

use crate::WireError;

/// A byte source. `src.data()` is the full underlying byte string (never
/// changed by reads) and `src.pos()` the cursor: bytes before it have been
/// consumed.
pub struct ByteSource {
    buf: Vec<u8>,
    pos: usize,
}

impl ByteSource {
    pub closed spec fn data(&self) -> Seq<u8> {
        self.buf@
    }

    pub closed spec fn pos(&self) -> nat {
        self.pos as nat
    }

    pub open spec fn wf(&self) -> bool {
        self.pos() <= self.data().len()
    }

    /// How many bytes are left to read.
    pub open spec fn remaining(&self) -> int {
        self.data().len() - self.pos()
    }

    pub fn new(data: Vec<u8>) -> (s: ByteSource)
        ensures
            s.data() == data@,
            s.pos() == 0,
            s.wf(),
    {
        ByteSource { buf: data, pos: 0 }
    }

    /// How many bytes are left to read.
    pub fn bytes_left(&self) -> (n: usize)
        requires
            self.wf(),
        ensures
            n == self.remaining(),
    {
        self.buf.len() - self.pos
    }

    /// Reads exactly `n` bytes, advancing the cursor past them; fails if
    /// fewer than `n` bytes are left, leaving the cursor where it was.
    pub fn read_exact(&mut self, n: usize) -> (r: Result<Vec<u8>, WireError>)
        requires
            old(self).wf(),
        ensures
            final(self).wf(),
            final(self).data() == old(self).data(),
            r is Ok <==> old(self).remaining() >= n,
            r matches Ok(v) ==> v@ == old(self).data().subrange(
                old(self).pos() as int,
                old(self).pos() + n,
            ) && v@.len() == n && final(self).pos() == old(self).pos() + n,
            r is Err ==> *final(self) == *old(self) && r == Err::<Vec<u8>, WireError>(
                WireError::UnexpectedEnd,
            ),
    {
        if n <= self.buf.len() - self.pos {
            let mut out: Vec<u8> = Vec::new();
            let mut i: usize = 0;
            while i < n
                invariant
                    i <= n,
                    self.pos + n <= self.buf@.len(),
                    self.buf@.len() <= usize::MAX,
                    out@ == self.buf@.subrange(self.pos as int, self.pos + i),
                decreases n - i,
            {
                let ghost prev = out@;
                out.push(self.buf[self.pos + i]);
                proof {
                    assert(prev + seq![self.buf@[self.pos + i]] =~= self.buf@.subrange(
                        self.pos as int,
                        self.pos + i + 1,
                    ));
                }
                i = i + 1;
            }
            self.pos = self.pos + n;
            Ok(out)
        } else {
            Err(WireError::UnexpectedEnd)
        }
    }
}

} // verus!
