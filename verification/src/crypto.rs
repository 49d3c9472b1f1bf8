//! Trusted boundary to the cryptographic primitives the codec is built
//! on: the checksum digest, the base-58 alphabet, and the curve's point
//! validation. Each result is a pure function of the input bytes alone.

use vstd::prelude::*;

verus! {

/// The 32-byte BLAKE2b-256 digest of a byte sequence.
pub uninterp spec fn blake2b256_of(data: Seq<u8>) -> Seq<u8>;

/// The base-58 string (Bitcoin alphabet, no padding) of a byte sequence.
pub uninterp spec fn base58_of(data: Seq<u8>) -> Seq<char>;

/// Whether a byte sequence is a valid SEC1 compressed encoding of a
/// point on the secp256k1 curve.
pub uninterp spec fn sec1_point_valid(data: Seq<u8>) -> bool;

/// Relies on blake2::Blake2b256 through the digest traits: the hash is
/// 32 bytes long and depends on the input bytes alone.
#[verifier::external_body]
pub(crate) fn blake2b256(data: &[u8]) -> (r: Vec<u8>)
    ensures
        r@ == blake2b256_of(data@),
        r@.len() == 32,
{
    let mut hasher = <blake2::Blake2b256 as blake2::Digest>::new();
    blake2::Digest::update(&mut hasher, data);
    let out = blake2::Digest::finalize(hasher);
    out.as_slice().to_vec()
}

/// Relies on bs58::encode with its default (Bitcoin) alphabet: the
/// string depends on the input bytes alone.
#[verifier::external_body]
pub(crate) fn base58_encode(data: &[u8]) -> (r: String)
    ensures
        r@ == base58_of(data@),
{
    bs58::encode(data).into_string()
}

/// Relies on bs58::decode with its default (Bitcoin) alphabet. Decoding
/// is the exact inverse of encoding: it succeeds precisely on the
/// strings the alphabet produces, and two distinct byte sequences never
/// share an encoding, so the preimage returned is unique.
#[verifier::external_body]
pub(crate) fn base58_decode(s: &str) -> (r: Option<Vec<u8>>)
    ensures
        match r {
            Some(v) => s@ == base58_of(v@) && (forall|b: Seq<u8>| s@ == base58_of(b) ==> b == v@),
            None => forall|b: Seq<u8>| s@ != base58_of(b),
        },
{
    match bs58::decode(s).into_vec() {
        Ok(v) => Some(v),
        Err(_) => None,
    }
}

/// Relies on k256::PublicKey::from_sec1_bytes: it accepts exactly the
/// valid SEC1 encodings of on-curve, non-identity points, a property of
/// the bytes alone.
#[verifier::external_body]
pub(crate) fn ec_point_is_valid(data: &[u8]) -> (r: bool)
    ensures
        r == sec1_point_valid(data@),
{
    k256::PublicKey::from_sec1_bytes(data).is_ok()
}

} // verus!
