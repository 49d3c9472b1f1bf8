//! Box identifier: the digest-valued content address of a transaction
//! output. Serialization delegates entirely to the inner digest.

use vstd::prelude::*;

use crate::base16::{base16_of, hex_val, is_hex_char};
use crate::digest32::{spec_digest32_parse, Digest32, Digest32Error};
use crate::serialization::{SigmaByteReader, SigmaByteWriter, SigmaParsingError};

verus! {

/// The signed reinterpretation of a byte: the same bit pattern read as
/// a two's-complement value.
pub open spec fn signed_of(b: u8) -> i8 {
    if b < 128 {
        b as i8
    } else {
        (b - 256) as i8
    }
}

/// Identifier of a box: a newtype over the digest of its content. Two
/// box identifiers are equal exactly when their digests are byte-equal.
#[derive(Debug, Clone, PartialEq, Eq, Hash)]
pub struct BoxId(pub Digest32);

impl View for BoxId {
    type V = Seq<u8>;

    open spec fn view(&self) -> Seq<u8> {
        self.0@
    }
}

impl BoxId {
    /// The digest length invariant, inherited from the inner digest.
    pub open spec fn wf(&self) -> bool {
        self.0.wf()
    }

    /// The all-zero box identifier.
    pub fn zero() -> (r: BoxId)
        ensures
            r.wf(),
            r@ == crate::digest32::zero_digest(),
    {
        BoxId(Digest32::zero())
    }

    /// A copy of the identifier's bytes.
    pub fn to_vec(&self) -> (r: Vec<u8>)
        ensures
            r@ == self@,
    {
        self.0.to_vec()
    }

    /// The identifier's bytes reinterpreted as signed bytes: a lossless
    /// change of representation, no value change.
    pub fn to_signed_bytes(&self) -> (r: Vec<i8>)
        ensures
            r@.len() == self@.len(),
            forall|i: int| 0 <= i < r@.len() ==> r@[i] == signed_of(#[trigger] self@[i]),
    {
        let bytes = self.0.to_vec();
        let mut r: Vec<i8> = Vec::new();
        let mut i: usize = 0;
        while i < bytes.len()
            invariant
                i <= bytes@.len(),
                bytes@ == self@,
                r@.len() == i,
                forall|j: int| 0 <= j < i ==> r@[j] == signed_of(#[trigger] self@[j]),
            decreases bytes@.len() - i,
        {
            let b = bytes[i];
            let s: i8 = if b < 128 {
                b as i8
            } else {
                #[verifier::truncate] (b as i8)
            };
            assert(s == signed_of(b)) by (bit_vector)
                requires
                    s == b as i8 || (b < 128 && s == b as i8),
            ;
            r.push(s);
            i = i + 1;
        }
        r
    }

    /// Wire form: exactly the inner digest's 32 raw bytes.
    pub fn sigma_serialize(&self, w: &mut SigmaByteWriter)
        requires
            self.wf(),
        ensures
            final(w).bytes@ == old(w).bytes@ + self@,
    {
        self.0.sigma_serialize(w);
    }

    /// Parse a box identifier: the next 32 bytes of the stream.
    pub fn sigma_parse(r: &mut SigmaByteReader) -> (res: Result<BoxId, SigmaParsingError>)
        requires
            old(r).wf(),
        ensures
            final(r).wf(),
            final(r).data@ == old(r).data@,
            match res {
                Ok(b) => {
                    &&& b.wf()
                    &&& spec_digest32_parse(old(r).remaining()) == Ok::<_, SigmaParsingError>(b@)
                    &&& final(r).remaining() == old(r).remaining().skip(32)
                },
                Err(e) => {
                    &&& spec_digest32_parse(old(r).remaining()) == Err::<Seq<u8>, _>(e)
                    &&& *final(r) == *old(r)
                },
            },
    {
        Ok(BoxId(Digest32::sigma_parse(r)?))
    }

    /// The identifier as a lower-case base-16 string.
    pub fn to_base16_string(&self) -> (r: String)
        ensures
            r@ == base16_of(self@),
    {
        self.0.to_base16_string()
    }

    /// Rebuild an identifier from a base-16 string; fails with a
    /// decoding error on malformed input or wrong length.
    pub fn from_base16_str(s: &str) -> (r: Result<BoxId, Digest32Error>)
        ensures
            match r {
                Ok(b) => {
                    &&& b.wf()
                    &&& s@.len() == 64
                    &&& forall|i: int| 0 <= i < 64 ==> is_hex_char(#[trigger] s@[i])
                    &&& forall|j: int|
                        0 <= j < 32 ==> #[trigger] b@[j] == hex_val(s@[2 * j]) * 16 + hex_val(
                            s@[2 * j + 1],
                        )
                },
                Err(Digest32Error::InvalidBase16) => s@.len() % 2 != 0 || exists|i: int|
                    0 <= i < s@.len() && !is_hex_char(#[trigger] s@[i]),
                Err(Digest32Error::InvalidSize) => {
                    &&& s@.len() % 2 == 0
                    &&& s@.len() != 64
                    &&& forall|i: int| 0 <= i < s@.len() ==> is_hex_char(#[trigger] s@[i])
                },
            },
    {
        Ok(BoxId(Digest32::from_base16_str(s)?))
    }
}

/// Round trip: parsing the serialization of any box identifier yields
/// exactly that identifier's bytes.
pub proof fn lemma_box_id_roundtrip(b: BoxId)
    requires
        b.wf(),
    ensures
        spec_digest32_parse(b@) == Ok::<_, SigmaParsingError>(b@),
{
    assert(b@.take(32) =~= b@);
}

} // verus!
