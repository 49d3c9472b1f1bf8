//! Elliptic-curve point in compressed wire form, and the discrete-log
//! proof statement that wraps one.

use vstd::prelude::*;

use crate::crypto::{ec_point_is_valid, sec1_point_valid};
use crate::serialization::{SigmaByteReader, SigmaByteWriter, SigmaParsingError};

verus! {

/// Number of bytes in a compressed point encoding.
pub const EC_POINT_SIZE: usize = 33;

/// The distinguished encoding of the identity (infinity) point.
pub open spec fn identity_point_bytes() -> Seq<u8> {
    Seq::<u8>::new(33, |i: int| 0u8)
}

/// The canonical stored form of 33 freshly read bytes: a leading zero
/// byte marks the identity point, whatever follows it, and the identity
/// is stored as all zeros; any other leading byte must open a valid
/// compressed point.
pub open spec fn normalize_point(b: Seq<u8>) -> Seq<u8> {
    if b[0] == 0 {
        identity_point_bytes()
    } else {
        b
    }
}

/// What parsing a point from a byte stream yields: the canonical form
/// of the first 33 bytes, or failure on a shorter stream or an
/// off-curve encoding.
pub open spec fn spec_parse_ec_point(s: Seq<u8>) -> Result<Seq<u8>, SigmaParsingError> {
    if s.len() < 33 {
        Err(SigmaParsingError::UnexpectedEof)
    } else {
        let b = s.take(33);
        if b[0] == 0 {
            Ok(identity_point_bytes())
        } else if sec1_point_valid(b) {
            Ok(b)
        } else {
            Err(SigmaParsingError::InvalidEcPoint)
        }
    }
}

/// A point on the curve, held in compressed form. Every successfully
/// parsed point lies on the curve: there is no invalid point value.
#[derive(Debug, Clone, PartialEq, Eq, Hash)]
pub struct EcPoint {
    bytes: Vec<u8>,
}

impl View for EcPoint {
    type V = Seq<u8>;

    closed spec fn view(&self) -> Seq<u8> {
        self.bytes@
    }
}

impl EcPoint {
    /// The stored encoding is canonical: 33 bytes, the all-zero identity
    /// or a valid on-curve compressed point.
    pub open spec fn wf(&self) -> bool {
        &&& self@.len() == 33
        &&& (self@[0] == 0 ==> self@ == identity_point_bytes())
        &&& (self@[0] != 0 ==> sec1_point_valid(self@))
    }

    /// The identity (infinity) point.
    pub fn identity() -> (r: EcPoint)
        ensures
            r.wf(),
            r@ == identity_point_bytes(),
    {
        let bytes: Vec<u8> = vec![0u8; 33];
        proof {
            assert(bytes@ =~= identity_point_bytes());
        }
        EcPoint { bytes }
    }

    /// A copy of the compressed encoding.
    pub fn to_vec(&self) -> (r: Vec<u8>)
        ensures
            r@ == self@,
    {
        self.bytes.clone()
    }

    /// Decide canonicity of the held bytes at run time.
    pub fn is_wf(&self) -> (r: bool)
        ensures
            r == self.wf(),
    {
        if self.bytes.len() != 33 {
            return false;
        }
        if self.bytes[0] == 0 {
            let mut i: usize = 0;
            while i < 33
                invariant
                    i <= 33,
                    self@.len() == 33,
                    self@[0] == 0,
                    forall|k: int| 0 <= k < i ==> self@[k] == 0,
                decreases 33 - i,
            {
                if self.bytes[i] != 0 {
                    return false;
                }
                i = i + 1;
            }
            proof {
                assert(self@ =~= identity_point_bytes());
            }
            true
        } else {
            ec_point_is_valid(self.bytes.as_slice())
        }
    }

    /// Decompress a point from exactly 33 bytes, failing unless they
    /// encode the identity or an on-curve point.
    pub fn from_bytes(bytes: Vec<u8>) -> (r: Result<EcPoint, SigmaParsingError>)
        requires
            bytes@.len() == 33,
        ensures
            match r {
                Ok(p) => p.wf() && spec_parse_ec_point(bytes@) == Ok::<_, SigmaParsingError>(p@),
                Err(e) => spec_parse_ec_point(bytes@) == Err::<Seq<u8>, _>(e),
            },
    {
        proof {
            assert(bytes@.take(33) =~= bytes@);
        }
        if bytes[0] == 0 {
            Ok(EcPoint::identity())
        } else if ec_point_is_valid(bytes.as_slice()) {
            Ok(EcPoint { bytes })
        } else {
            Err(SigmaParsingError::InvalidEcPoint)
        }
    }

    /// Wire form: the compressed 33 bytes, no framing.
    pub fn sigma_serialize(&self, w: &mut SigmaByteWriter)
        requires
            self.wf(),
        ensures
            final(w).bytes@ == old(w).bytes@ + self@,
    {
        w.put_slice(self.bytes.as_slice());
    }

    /// Parse the next 33 bytes of the stream as a point.
    pub fn sigma_parse(r: &mut SigmaByteReader) -> (res: Result<EcPoint, SigmaParsingError>)
        requires
            old(r).wf(),
        ensures
            final(r).wf(),
            final(r).data@ == old(r).data@,
            match res {
                Ok(p) => {
                    &&& p.wf()
                    &&& spec_parse_ec_point(old(r).remaining()) == Ok::<_, SigmaParsingError>(p@)
                    &&& final(r).remaining() == old(r).remaining().skip(33)
                },
                Err(e) => spec_parse_ec_point(old(r).remaining()) == Err::<Seq<u8>, _>(e),
            },
    {
        let v = r.read_bytes(33)?;
        proof {
            assert(v@.take(33) =~= v@);
        }
        EcPoint::from_bytes(v)
    }

    /// Parse a point from the front of a byte slice.
    pub fn sigma_parse_bytes(bytes: &[u8]) -> (r: Result<EcPoint, SigmaParsingError>)
        ensures
            match r {
                Ok(p) => p.wf() && spec_parse_ec_point(bytes@) == Ok::<_, SigmaParsingError>(p@),
                Err(e) => spec_parse_ec_point(bytes@) == Err::<Seq<u8>, _>(e),
            },
    {
        let mut reader = SigmaByteReader::new(bytes);
        EcPoint::sigma_parse(&mut reader)
    }
}

/// Round trip: parsing the serialization of any point yields exactly
/// that point's canonical bytes.
pub proof fn lemma_ec_point_roundtrip(p: EcPoint)
    requires
        p.wf(),
    ensures
        spec_parse_ec_point(p@) == Ok::<_, SigmaParsingError>(p@),
{
    assert(p@.take(33) =~= p@);
    if p@[0] == 0 {
        assert(p@ == identity_point_bytes());
    }
}

/// The public half of a signature-style proof: "prove knowledge of the
/// private key behind this point". Serialization of the statement is
/// exactly the serialization of its point.
#[derive(Debug, Clone, PartialEq, Eq, Hash)]
pub struct ProveDlog {
    /// The public point the statement speaks of.
    pub h: EcPoint,
}

impl View for ProveDlog {
    type V = Seq<u8>;

    open spec fn view(&self) -> Seq<u8> {
        self.h@
    }
}

impl ProveDlog {
    /// Statement validity is exactly point validity.
    pub open spec fn wf(&self) -> bool {
        self.h.wf()
    }

    /// Total, non-failing constructor: validity was established when
    /// the point was parsed.
    pub fn new(point: EcPoint) -> (r: ProveDlog)
        ensures
            r.h == point,
            r@ == point@,
    {
        ProveDlog { h: point }
    }
}

} // verus!
