//! Sequential, forward-only byte cursors that every on-chain value is
//! serialized into and parsed out of, together with the parsing error type.

use vstd::prelude::*;

verus! {

/// Why a byte-stream parse failed.
#[derive(Debug, Clone, Copy, PartialEq, Eq, Structural)]
pub enum SigmaParsingError {
    /// The stream ended before the type's encoding was complete.
    UnexpectedEof,
    /// The bytes do not encode a point on the curve.
    InvalidEcPoint,
}

/// Forward-only byte sink; serialization appends and never rewrites.
pub struct SigmaByteWriter {
    pub bytes: Vec<u8>,
}

impl SigmaByteWriter {
    /// An empty sink.
    pub fn new() -> (w: SigmaByteWriter)
        ensures
            w.bytes@ == Seq::<u8>::empty(),
    {
        SigmaByteWriter { bytes: Vec::new() }
    }

    /// Append one byte.
    pub fn put_u8(&mut self, b: u8)
        ensures
            final(self).bytes@ == old(self).bytes@.push(b),
    {
        self.bytes.push(b);
    }

    /// Append a whole slice.
    pub fn put_slice(&mut self, s: &[u8])
        ensures
            final(self).bytes@ == old(self).bytes@ + s@,
    {
        let mut i: usize = 0;
        while i < s.len()
            invariant
                i <= s@.len(),
                self.bytes@ == old(self).bytes@ + s@.take(i as int),
            decreases s@.len() - i,
        {
            self.bytes.push(s[i]);
            i = i + 1;
            proof {
                assert(old(self).bytes@ + s@.take(i as int) =~= (old(self).bytes@
                    + s@.take(i - 1)).push(s@[i - 1]));
            }
        }
        proof {
            assert(s@.take(s@.len() as int) =~= s@);
        }
    }

    /// Hand the accumulated bytes to the caller.
    pub fn into_bytes(self) -> (r: Vec<u8>)
        ensures
            r@ == self.bytes@,
    {
        self.bytes
    }
}

/// Forward-only byte source over a borrowed buffer; reading past the end
/// fails explicitly, it never panics or truncates silently.
pub struct SigmaByteReader<'a> {
    pub data: &'a [u8],
    pub pos: usize,
}

impl<'a> SigmaByteReader<'a> {
    /// The cursor is in bounds.
    pub open spec fn wf(&self) -> bool {
        self.pos <= self.data@.len()
    }

    /// The bytes not yet consumed.
    pub open spec fn remaining(&self) -> Seq<u8> {
        self.data@.skip(self.pos as int)
    }

    /// A cursor at the start of `data`.
    pub fn new(data: &'a [u8]) -> (r: SigmaByteReader<'a>)
        ensures
            r.wf(),
            r.remaining() == data@,
            r.data@ == data@,
    {
        let r = SigmaByteReader { data, pos: 0 };
        proof {
            assert(r.remaining() =~= data@);
        }
        r
    }

    /// Read exactly `n` bytes, failing on exhaustion.
    pub fn read_bytes(&mut self, n: usize) -> (r: Result<Vec<u8>, SigmaParsingError>)
        requires
            old(self).wf(),
        ensures
            final(self).wf(),
            final(self).data@ == old(self).data@,
            match r {
                Ok(v) => {
                    &&& old(self).remaining().len() >= n
                    &&& v@ == old(self).remaining().take(n as int)
                    &&& final(self).remaining() == old(self).remaining().skip(n as int)
                    &&& v@.len() == n
                },
                Err(e) => {
                    &&& old(self).remaining().len() < n
                    &&& e == SigmaParsingError::UnexpectedEof
                    &&& *final(self) == *old(self)
                },
            },
    {
        if n > self.data.len() - self.pos {
            return Err(SigmaParsingError::UnexpectedEof);
        }
        let data = self.data;
        let pos = self.pos;
        let mut v: Vec<u8> = Vec::new();
        let mut i: usize = 0;
        while i < n
            invariant
                i <= n,
                pos + n <= usize::MAX,
                pos + n <= data@.len(),
                data@ == self.data@,
                pos == self.pos,
                v@ == self.remaining().take(n as int).take(i as int),
            decreases n - i,
        {
            v.push(data[pos + i]);
            i = i + 1;
            proof {
                assert(self.remaining().take(n as int).take(i as int) =~= self.remaining().take(
                    n as int,
                ).take(i - 1).push(data@[pos + i - 1]));
            }
        }
        let ghost before = *self;
        self.pos = self.pos + n;
        proof {
            assert(v@ =~= before.remaining().take(n as int));
            assert(self.remaining() =~= before.remaining().skip(n as int));
        }
        Ok(v)
    }

    /// True when every byte has been consumed.
    pub fn is_at_end(&self) -> (r: bool)
        requires
            self.wf(),
        ensures
            r == (self.remaining().len() == 0),
    {
        self.pos == self.data.len()
    }
}

} // verus!
