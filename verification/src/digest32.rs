//! Fixed-length 256-bit digest: the content identifier used throughout
//! the chain model.

use vstd::prelude::*;

use crate::base16::{base16_decode, base16_encode, base16_of, hex_val, is_hex_char};
use crate::serialization::{SigmaByteReader, SigmaByteWriter, SigmaParsingError};

verus! {

/// Number of bytes in a digest.
pub const DIGEST32_SIZE: usize = 32;

/// Why a digest could not be rebuilt from a string.
#[derive(Debug, Clone, Copy, PartialEq, Eq, Structural)]
pub enum Digest32Error {
    /// The string is not valid base-16.
    InvalidBase16,
    /// The decoded bytes are not exactly the digest size.
    InvalidSize,
}

/// An opaque fixed-length byte array; immutable after construction and
/// compared by value.
#[derive(Debug, Clone, PartialEq, Eq, Hash)]
pub struct Digest32 {
    bytes: Vec<u8>,
}

/// The all-zero digest value.
pub open spec fn zero_digest() -> Seq<u8> {
    Seq::<u8>::new(32, |i: int| 0u8)
}

/// What parsing a digest from a byte stream yields: the first 32 bytes,
/// or failure where fewer remain.
pub open spec fn spec_digest32_parse(s: Seq<u8>) -> Result<Seq<u8>, SigmaParsingError> {
    if s.len() >= 32 {
        Ok(s.take(32))
    } else {
        Err(SigmaParsingError::UnexpectedEof)
    }
}

impl View for Digest32 {
    type V = Seq<u8>;

    closed spec fn view(&self) -> Seq<u8> {
        self.bytes@
    }
}

impl Digest32 {
    /// The length invariant: exactly 32 bytes, always.
    pub open spec fn wf(&self) -> bool {
        self@.len() == 32
    }

    /// The distinguished all-zero digest.
    pub fn zero() -> (r: Digest32)
        ensures
            r.wf(),
            r@ == zero_digest(),
    {
        let bytes: Vec<u8> = vec![0u8; 32];
        proof {
            assert(bytes@ =~= zero_digest());
        }
        Digest32 { bytes }
    }

    /// Wrap exactly 32 bytes; fails on any other length.
    pub fn from_vec(v: Vec<u8>) -> (r: Result<Digest32, Digest32Error>)
        ensures
            match r {
                Ok(d) => v@.len() == 32 && d@ == v@ && d.wf(),
                Err(e) => v@.len() != 32 && e == Digest32Error::InvalidSize,
            },
    {
        if v.len() == 32 {
            Ok(Digest32 { bytes: v })
        } else {
            Err(Digest32Error::InvalidSize)
        }
    }

    /// A copy of the digest bytes.
    pub fn to_vec(&self) -> (r: Vec<u8>)
        ensures
            r@ == self@,
    {
        self.bytes.clone()
    }

    /// Wire form: the raw 32 bytes, unframed.
    pub fn sigma_serialize(&self, w: &mut SigmaByteWriter)
        requires
            self.wf(),
        ensures
            final(w).bytes@ == old(w).bytes@ + self@,
    {
        w.put_slice(self.bytes.as_slice());
    }

    /// Parse the next 32 bytes of the stream as a digest; fails on a
    /// shorter stream and leaves it unread then.
    pub fn sigma_parse(r: &mut SigmaByteReader) -> (res: Result<Digest32, SigmaParsingError>)
        requires
            old(r).wf(),
        ensures
            final(r).wf(),
            final(r).data@ == old(r).data@,
            match res {
                Ok(d) => {
                    &&& d.wf()
                    &&& spec_digest32_parse(old(r).remaining()) == Ok::<_, SigmaParsingError>(d@)
                    &&& final(r).remaining() == old(r).remaining().skip(32)
                },
                Err(e) => {
                    &&& spec_digest32_parse(old(r).remaining()) == Err::<Seq<u8>, _>(e)
                    &&& *final(r) == *old(r)
                },
            },
    {
        let v = r.read_bytes(32)?;
        Ok(Digest32 { bytes: v })
    }

    /// The digest as a lower-case base-16 string.
    pub fn to_base16_string(&self) -> (r: String)
        ensures
            r@ == base16_of(self@),
    {
        base16_encode(self.bytes.as_slice())
    }

    /// Rebuild a digest from a base-16 string, upper or lower case;
    /// fails on a string that is not hex, and on one that decodes to
    /// any length but 32 bytes.
    pub fn from_base16_str(s: &str) -> (r: Result<Digest32, Digest32Error>)
        ensures
            match r {
                Ok(d) => {
                    &&& d.wf()
                    &&& s@.len() == 64
                    &&& forall|i: int| 0 <= i < 64 ==> is_hex_char(#[trigger] s@[i])
                    &&& forall|j: int|
                        0 <= j < 32 ==> #[trigger] d@[j] == hex_val(s@[2 * j]) * 16 + hex_val(
                            s@[2 * j + 1],
                        )
                },
                Err(Digest32Error::InvalidBase16) => s@.len() % 2 != 0 || exists|i: int|
                    0 <= i < s@.len() && !is_hex_char(#[trigger] s@[i]),
                Err(Digest32Error::InvalidSize) => {
                    &&& s@.len() % 2 == 0
                    &&& s@.len() != 64
                    &&& forall|i: int| 0 <= i < s@.len() ==> is_hex_char(#[trigger] s@[i])
                },
            },
    {
        match base16_decode(s) {
            Some(v) => match Digest32::from_vec(v) {
                Ok(d) => Ok(d),
                Err(_) => Err(Digest32Error::InvalidSize),
            },
            None => Err(Digest32Error::InvalidBase16),
        }
    }
}

/// Round trip: parsing the serialization of any digest yields exactly
/// that digest's bytes.
pub proof fn lemma_digest32_roundtrip(d: Digest32)
    requires
        d.wf(),
    ensures
        spec_digest32_parse(d@) == Ok::<_, SigmaParsingError>(d@),
{
    assert(d@.take(32) =~= d@);
}

} // verus!
