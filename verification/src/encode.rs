//! Network-aware string codec for addresses: checksummed base-58 over
//! `header || payload || checksum`.

use vstd::prelude::*;

use crate::address::{
    spec_content_bytes, spec_type_prefix, Address, AddressContent, NetworkPrefix,
};
use crate::crypto::{
    base58_decode, base58_encode, base58_of, blake2b256, blake2b256_of, sec1_point_valid,
};
use crate::digest32::Digest32;
use crate::ec_point::{identity_point_bytes, EcPoint, ProveDlog};

verus! {

/// Bytes of checksum appended to an encoded address.
pub const CHECKSUM_LENGTH: usize = 4;

/// Shortest well-formed encoded address: header, one payload byte, and
/// the checksum.
pub const MIN_ADDRESS_LENGTH: usize = 6;

/// Why a string could not be decoded into an address. Each failure is
/// distinct and inspectable; none falls back to a default.
#[derive(Debug, Clone, Copy, PartialEq, Eq, Structural)]
pub enum AddressEncoderError {
    /// The string is not in the base-58 alphabet.
    InvalidBase58,
    /// Too few bytes for header, payload and checksum, or a payload of
    /// the wrong length for its type.
    InvalidSize,
    /// The recomputed checksum does not match the transmitted one.
    ChecksumMismatch,
    /// The header's address-type nibble names no known shape.
    UnrecognizedAddressType,
    /// The header's network component is not the expected network.
    NetworkMismatch,
    /// A pay-to-public-key payload that is not an on-curve point.
    InvalidEcPoint,
}

/// The header byte of an address: the arithmetic sum of the network
/// offset and the type nibble.
pub open spec fn spec_header_byte(a: AddressContent, n: NetworkPrefix) -> u8 {
    (n.spec_value() + spec_type_prefix(a).spec_value()) as u8
}

/// The four-byte checksum of an encoded address: the leading bytes of
/// the body's 32-byte digest.
pub open spec fn spec_checksum(body: Seq<u8>) -> Seq<u8> {
    Seq::new(4, |i: int| blake2b256_of(body)[i])
}

/// The full encoded byte string of an address on a network:
/// `header || payload || first four checksum bytes`, the checksum taken
/// over `header || payload`.
pub open spec fn spec_address_bytes(a: AddressContent, n: NetworkPrefix) -> Seq<u8> {
    let body = seq![spec_header_byte(a, n)] + spec_content_bytes(a);
    body + spec_checksum(body)
}

/// What decoding a byte string yields, with `expected` the network a
/// checked parse is bound to (`None` for the unchecked parse): length
/// check, then checksum, then network, then the type nibble's payload.
pub open spec fn spec_parse_address_bytes(b: Seq<u8>, expected: Option<NetworkPrefix>) -> Result<
    AddressContent,
    AddressEncoderError,
> {
    if b.len() < 6 {
        Err(AddressEncoderError::InvalidSize)
    } else if spec_checksum(b.take(b.len() - 4)) != b.skip(b.len() - 4) {
        Err(AddressEncoderError::ChecksumMismatch)
    } else if expected is Some && b[0] / 16 * 16 != expected->0.spec_value() {
        Err(AddressEncoderError::NetworkMismatch)
    } else {
        let t = b[0] % 16;
        let payload = b.subrange(1, b.len() - 4);
        if t == 1 {
            if payload.len() != 33 {
                Err(AddressEncoderError::InvalidSize)
            } else if payload[0] == 0 {
                Ok(AddressContent::P2Pk { point: identity_point_bytes() })
            } else if sec1_point_valid(payload) {
                Ok(AddressContent::P2Pk { point: payload })
            } else {
                Err(AddressEncoderError::InvalidEcPoint)
            }
        } else if t == 2 {
            if payload.len() == 32 {
                Ok(AddressContent::P2Sh { hash: payload })
            } else {
                Err(AddressEncoderError::InvalidSize)
            }
        } else if t == 3 {
            Ok(AddressContent::P2S { tree: payload })
        } else {
            Err(AddressEncoderError::UnrecognizedAddressType)
        }
    }
}

/// Whether some byte string encodes to this base-58 string.
pub open spec fn has_base58_preimage(s: Seq<char>) -> bool {
    exists|b: Seq<u8>| s == base58_of(b)
}

/// The byte string a base-58 string decodes to, where one exists; it is
/// unique because the encoding is injective.
pub open spec fn spec_base58_preimage(s: Seq<char>) -> Seq<u8> {
    choose|b: Seq<u8>| s == base58_of(b)
}

/// Encoder/decoder of addresses, bound to one network for its checked
/// parse. Encoding is deterministic: a pure function of network and
/// address.
#[derive(Debug, Clone, Copy, PartialEq, Eq, Structural)]
pub struct AddressEncoder {
    /// The network the checked parse accepts.
    pub network_prefix: NetworkPrefix,
}

impl AddressEncoder {
    /// An encoder bound to the given network.
    pub fn new(network_prefix: NetworkPrefix) -> (r: AddressEncoder)
        ensures
            r.network_prefix == network_prefix,
    {
        AddressEncoder { network_prefix }
    }

    /// The encoded byte string of an address on a network.
    pub fn encode_address_as_bytes(network_prefix: NetworkPrefix, address: &Address) -> (r: Vec<
        u8,
    >)
        requires
            address.wf(),
        ensures
            r@ == spec_address_bytes(address@, network_prefix),
    {
        let header: u8 = network_prefix.value() + address.address_type_prefix().value();
        let mut body: Vec<u8> = Vec::new();
        body.push(header);
        let mut content = address.content_bytes();
        body.append(&mut content);
        proof {
            assert(body@ =~= seq![spec_header_byte(address@, network_prefix)]
                + spec_content_bytes(address@));
        }
        let checksum = blake2b256(body.as_slice());
        let mut r = body;
        r.push(checksum[0]);
        r.push(checksum[1]);
        r.push(checksum[2]);
        r.push(checksum[3]);
        proof {
            assert(r@ =~= spec_address_bytes(address@, network_prefix));
        }
        r
    }

    /// The encoded string form of an address on a network: base-58 over
    /// the encoded bytes.
    pub fn encode_address_as_string(network_prefix: NetworkPrefix, address: &Address) -> (r:
        String)
        requires
            address.wf(),
        ensures
            r@ == base58_of(spec_address_bytes(address@, network_prefix)),
    {
        let bytes = AddressEncoder::encode_address_as_bytes(network_prefix, address);
        base58_encode(bytes.as_slice())
    }

    /// Decode an address from already base-58-decoded bytes, checked
    /// against `expected` when one is given.
    fn parse_address_from_bytes(bytes: &[u8], expected: Option<NetworkPrefix>) -> (r: Result<
        Address,
        AddressEncoderError,
    >)
        ensures
            match r {
                Ok(a) => a.wf() && spec_parse_address_bytes(bytes@, expected) == Ok::<
                    _,
                    AddressEncoderError,
                >(a@),
                Err(e) => spec_parse_address_bytes(bytes@, expected) == Err::<AddressContent, _>(
                    e,
                ),
            },
    {
        let n = bytes.len();
        if n < MIN_ADDRESS_LENGTH {
            return Err(AddressEncoderError::InvalidSize);
        }
        let body = vstd::slice::slice_to_vec(
            vstd::slice::slice_subrange(bytes, 0, n - CHECKSUM_LENGTH),
        );
        let checksum = blake2b256(body.as_slice());
        let cs_ok = checksum[0] == bytes[n - 4] && checksum[1] == bytes[n - 3] && checksum[2]
            == bytes[n - 2] && checksum[3] == bytes[n - 1];
        proof {
            let full = bytes@;
            assert(body@ =~= full.take(full.len() - 4));
            let want = spec_checksum(full.take(full.len() - 4));
            let got = full.skip(full.len() - 4);
            assert(got.len() == 4);
            assert(want.len() == 4);
            if cs_ok {
                assert(want =~= got);
            } else {
                assert(want != got) by {
                    if want == got {
                        assert(want[0] == got[0] && want[1] == got[1] && want[2] == got[2]
                            && want[3] == got[3]);
                    }
                }
            }
        }
        if !cs_ok {
            return Err(AddressEncoderError::ChecksumMismatch);
        }
        let header = bytes[0];
        match expected {
            Some(net) => {
                if header / 16 * 16 != net.value() {
                    return Err(AddressEncoderError::NetworkMismatch);
                }
            },
            None => {},
        }
        let t = header % 16;
        let payload = vstd::slice::slice_to_vec(vstd::slice::slice_subrange(bytes, 1, n - 4));
        if t == 1 {
            if payload.len() != 33 {
                return Err(AddressEncoderError::InvalidSize);
            }
            match EcPoint::from_bytes(payload) {
                Ok(p) => {
                    proof {
                        let pl = bytes@.subrange(1, bytes@.len() - 4);
                        assert(pl.take(33) =~= pl);
                    }
                    Ok(Address::P2Pk(ProveDlog::new(p)))
                },
                Err(_) => {
                    proof {
                        let pl = bytes@.subrange(1, bytes@.len() - 4);
                        assert(pl.take(33) =~= pl);
                    }
                    Err(AddressEncoderError::InvalidEcPoint)
                },
            }
        } else if t == 2 {
            match Digest32::from_vec(payload) {
                Ok(d) => Ok(Address::P2SH(d)),
                Err(_) => Err(AddressEncoderError::InvalidSize),
            }
        } else if t == 3 {
            Ok(Address::P2S(payload))
        } else {
            Err(AddressEncoderError::UnrecognizedAddressType)
        }
    }

    /// Checked parse: decode base-58, verify the checksum, and reject
    /// an address whose header is not from this encoder's network.
    pub fn parse_address_from_str(&self, s: &str) -> (r: Result<Address, AddressEncoderError>)
        ensures
            match r {
                Ok(a) => {
                    &&& has_base58_preimage(s@)
                    &&& a.wf()
                    &&& spec_parse_address_bytes(
                        spec_base58_preimage(s@),
                        Some(self.network_prefix),
                    ) == Ok::<_, AddressEncoderError>(a@)
                },
                Err(e) => {
                    if has_base58_preimage(s@) {
                        spec_parse_address_bytes(
                            spec_base58_preimage(s@),
                            Some(self.network_prefix),
                        ) == Err::<AddressContent, _>(e)
                    } else {
                        e == AddressEncoderError::InvalidBase58
                    }
                },
            },
    {
        match base58_decode(s) {
            Some(bytes) => {
                proof {
                    assert(spec_base58_preimage(s@) == bytes@);
                }
                AddressEncoder::parse_address_from_bytes(bytes.as_slice(), Some(
                    self.network_prefix,
                ))
            },
            None => Err(AddressEncoderError::InvalidBase58),
        }
    }

    /// Unchecked parse: identical decoding and checksum verification,
    /// but either network's header is accepted.
    pub fn unchecked_parse_address_from_str(s: &str) -> (r: Result<Address, AddressEncoderError>)
        ensures
            match r {
                Ok(a) => {
                    &&& has_base58_preimage(s@)
                    &&& a.wf()
                    &&& spec_parse_address_bytes(spec_base58_preimage(s@), None) == Ok::<
                        _,
                        AddressEncoderError,
                    >(a@)
                },
                Err(e) => {
                    if has_base58_preimage(s@) {
                        spec_parse_address_bytes(spec_base58_preimage(s@), None) == Err::<
                            AddressContent,
                            _,
                        >(e)
                    } else {
                        e == AddressEncoderError::InvalidBase58
                    }
                },
            },
    {
        match base58_decode(s) {
            Some(bytes) => {
                proof {
                    assert(spec_base58_preimage(s@) == bytes@);
                }
                AddressEncoder::parse_address_from_bytes(bytes.as_slice(), None)
            },
            None => Err(AddressEncoderError::InvalidBase58),
        }
    }
}

/// Round trip: decoding the encoded bytes of any valid address, checked
/// against the same network or not checked at all, yields the original
/// address content.
pub proof fn lemma_address_roundtrip(a: Address, n: NetworkPrefix)
    requires
        a.wf(),
    ensures
        spec_parse_address_bytes(spec_address_bytes(a@, n), Some(n)) == Ok::<
            _,
            AddressEncoderError,
        >(a@),
        spec_parse_address_bytes(spec_address_bytes(a@, n), None) == Ok::<
            _,
            AddressEncoderError,
        >(a@),
{
    let h = spec_header_byte(a@, n);
    let content = spec_content_bytes(a@);
    let body = seq![h] + content;
    let enc = spec_address_bytes(a@, n);
    assert(content.len() >= 1);
    assert(enc.len() == body.len() + 4);
    assert(enc.take(enc.len() - 4) =~= body);
    assert(enc.skip(enc.len() - 4) =~= spec_checksum(body));
    assert(enc[0] == h);
    let tv = spec_type_prefix(a@).spec_value();
    let nv = n.spec_value();
    assert(1 <= tv <= 3);
    assert(nv == 0 || nv == 16);
    assert(h == nv + tv);
    assert(h / 16 * 16 == nv && h % 16 == tv) by (bit_vector)
        requires
            h == nv + tv && (nv == 0 || nv == 16) && 1 <= tv && tv <= 3,
    ;
    assert(enc.subrange(1, enc.len() - 4) =~= content);
    match a@ {
        AddressContent::P2Pk { point } => {
            if point[0] == 0 {
                assert(point == identity_point_bytes());
            }
        },
        AddressContent::P2Sh { .. } => {},
        AddressContent::P2S { .. } => {},
    }
}

/// Checksum sensitivity, for the stored checksum bytes: any corruption
/// of the four transmitted checksum bytes of a valid encoded address,
/// a single flipped bit included, makes decoding fail with a checksum
/// mismatch. (Corruption of the header or payload is caught through the
/// digest's collision resistance, which no statement over an
/// uninterpreted digest can give; tests pin concrete cases.)
pub proof fn lemma_stored_checksum_corruption_rejected(
    a: Address,
    n: NetworkPrefix,
    b: Seq<u8>,
    expected: Option<NetworkPrefix>,
)
    requires
        a.wf(),
        b.len() == spec_address_bytes(a@, n).len(),
        b.take(b.len() - 4) == spec_address_bytes(a@, n).take(b.len() - 4),
        b.skip(b.len() - 4) != spec_address_bytes(a@, n).skip(b.len() - 4),
    ensures
        spec_parse_address_bytes(b, expected) == Err::<AddressContent, _>(
            AddressEncoderError::ChecksumMismatch,
        ),
{
    let enc = spec_address_bytes(a@, n);
    let body = seq![spec_header_byte(a@, n)] + spec_content_bytes(a@);
    assert(spec_content_bytes(a@).len() >= 1);
    assert(enc.len() == body.len() + 4);
    assert(enc.take(enc.len() - 4) =~= body);
    assert(enc.skip(enc.len() - 4) =~= spec_checksum(body));
    assert(spec_checksum(b.take(b.len() - 4)) == spec_checksum(body));
}

/// Network isolation: an address encoded for one network is rejected,
/// with a network-mismatch error, by the parse checked against the
/// other network.
pub proof fn lemma_network_isolation(a: Address, n_enc: NetworkPrefix, n_dec: NetworkPrefix)
    requires
        a.wf(),
        n_enc != n_dec,
    ensures
        spec_parse_address_bytes(spec_address_bytes(a@, n_enc), Some(n_dec)) == Err::<
            AddressContent,
            _,
        >(AddressEncoderError::NetworkMismatch),
{
    let h = spec_header_byte(a@, n_enc);
    let content = spec_content_bytes(a@);
    let body = seq![h] + content;
    let enc = spec_address_bytes(a@, n_enc);
    assert(content.len() >= 1);
    assert(enc.take(enc.len() - 4) =~= body);
    assert(enc.skip(enc.len() - 4) =~= spec_checksum(body));
    assert(enc[0] == h);
    let tv = spec_type_prefix(a@).spec_value();
    assert(1 <= tv <= 3);
    let nv = n_enc.spec_value();
    assert(h == nv + tv);
    assert(h / 16 * 16 == nv) by (bit_vector)
        requires
            h == nv + tv && (nv == 0 || nv == 16) && 1 <= tv && tv <= 3,
    ;
    assert(n_enc.spec_value() != n_dec.spec_value());
}

} // verus!
