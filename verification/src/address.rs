//! The address union: the three protocol-defined spending-condition
//! shapes, with conversions to and from the spending script.

use vstd::prelude::*;

use crate::digest32::Digest32;
use crate::ec_point::{
    normalize_point, spec_parse_ec_point, EcPoint, ProveDlog,
};
use crate::ergo_tree::{
    is_p2pk_tree, is_p2sh_tree, p2pk_tree_prefix, p2sh_tree_prefix, p2sh_tree_suffix, ErgoTree,
};
use crate::serialization::SigmaParsingError;

verus! {

/// Network tag: the numeric header offset of each address space.
#[derive(Debug, Clone, Copy, PartialEq, Eq, Structural)]
pub enum NetworkPrefix {
    /// Offset 0.
    Mainnet,
    /// Offset 16.
    Testnet,
}

impl NetworkPrefix {
    /// The fixed numeric header offset; part of the persisted format.
    pub open spec fn spec_value(&self) -> u8 {
        match self {
            NetworkPrefix::Mainnet => 0,
            NetworkPrefix::Testnet => 16,
        }
    }

    /// The fixed numeric header offset; part of the persisted format.
    pub fn value(&self) -> (r: u8)
        ensures
            r == self.spec_value(),
    {
        match self {
            NetworkPrefix::Mainnet => 0,
            NetworkPrefix::Testnet => 16,
        }
    }
}

/// Which of the three address shapes an encoded header carries; always
/// derived from the address variant, never independent of it.
#[derive(Debug, Clone, Copy, PartialEq, Eq, Structural)]
pub enum AddressTypePrefix {
    /// Header nibble 1: pay-to-public-key.
    P2Pk,
    /// Header nibble 2: pay-to-script-hash.
    Pay2Sh,
    /// Header nibble 3: pay-to-script.
    Pay2S,
}

impl AddressTypePrefix {
    /// The fixed numeric header nibble; part of the persisted format.
    pub open spec fn spec_value(&self) -> u8 {
        match self {
            AddressTypePrefix::P2Pk => 1,
            AddressTypePrefix::Pay2Sh => 2,
            AddressTypePrefix::Pay2S => 3,
        }
    }

    /// The fixed numeric header nibble; part of the persisted format.
    pub fn value(&self) -> (r: u8)
        ensures
            r == self.spec_value(),
    {
        match self {
            AddressTypePrefix::P2Pk => 1,
            AddressTypePrefix::Pay2Sh => 2,
            AddressTypePrefix::Pay2S => 3,
        }
    }
}

/// Why an address could not be derived from a script or rebuilt as one.
#[derive(Debug, Clone, Copy, PartialEq, Eq, Structural)]
pub enum AddressError {
    /// The script bytes hold no parseable container.
    UnparseableScript,
}

/// The observable content of an address, one case per shape.
pub enum AddressContent {
    /// A bare discrete-log statement: the compressed point.
    P2Pk { point: Seq<u8> },
    /// The digest of a script, not the script itself.
    P2Sh { hash: Seq<u8> },
    /// The full serialized spending script.
    P2S { tree: Seq<u8> },
}

/// An immutable spending condition in one of exactly three shapes. It
/// owns its payload and never aliases the script it was derived from.
#[derive(Debug, Clone, PartialEq, Eq, Hash)]
pub enum Address {
    /// Pay-to-public-key: a discrete-log statement.
    P2Pk(ProveDlog),
    /// Pay-to-script-hash: the digest of a script.
    P2SH(Digest32),
    /// Pay-to-script: the full serialized script bytes.
    P2S(Vec<u8>),
}

impl View for Address {
    type V = AddressContent;

    open spec fn view(&self) -> AddressContent {
        match self {
            Address::P2Pk(d) => AddressContent::P2Pk { point: d@ },
            Address::P2SH(h) => AddressContent::P2Sh { hash: h@ },
            Address::P2S(t) => AddressContent::P2S { tree: t@ },
        }
    }
}

/// The payload bytes an address contributes to its encoded form.
pub open spec fn spec_content_bytes(a: AddressContent) -> Seq<u8> {
    match a {
        AddressContent::P2Pk { point } => point,
        AddressContent::P2Sh { hash } => hash,
        AddressContent::P2S { tree } => tree,
    }
}

/// The header nibble of each shape.
pub open spec fn spec_type_prefix(a: AddressContent) -> AddressTypePrefix {
    match a {
        AddressContent::P2Pk { .. } => AddressTypePrefix::P2Pk,
        AddressContent::P2Sh { .. } => AddressTypePrefix::Pay2Sh,
        AddressContent::P2S { .. } => AddressTypePrefix::Pay2S,
    }
}

/// The script an address denotes: the fixed statement script around a
/// held point, the guard template around a held digest, or the held
/// script bytes verbatim.
pub open spec fn spec_script_of(a: AddressContent) -> Seq<u8> {
    match a {
        AddressContent::P2Pk { point } => p2pk_tree_prefix() + point,
        AddressContent::P2Sh { hash } => p2sh_tree_prefix() + hash + p2sh_tree_suffix(),
        AddressContent::P2S { tree } => tree,
    }
}

/// The address a script's root statement denotes: a bare discrete-log
/// statement gives pay-to-public-key, the script-hash guard template
/// gives pay-to-script-hash, and anything else is wrapped whole as
/// pay-to-script.
pub open spec fn spec_recreate(t: Seq<u8>) -> AddressContent {
    if is_p2pk_tree(t) {
        AddressContent::P2Pk { point: normalize_point(t.skip(3)) }
    } else if is_p2sh_tree(t) {
        AddressContent::P2Sh { hash: t.subrange(5, 37) }
    } else {
        AddressContent::P2S { tree: t }
    }
}

impl Address {
    /// Every address value satisfies its shape's payload invariant.
    pub open spec fn wf(&self) -> bool {
        match self {
            Address::P2Pk(d) => d.wf(),
            Address::P2SH(h) => h.wf(),
            Address::P2S(t) => t@.len() >= 1,
        }
    }

    /// Decide validity at run time, for callers outside the proofs.
    pub fn is_wf(&self) -> (r: bool)
        ensures
            r == self.wf(),
    {
        match self {
            Address::P2Pk(d) => d.h.is_wf(),
            Address::P2SH(h) => h.to_vec().len() == 32,
            Address::P2S(t) => t.len() >= 1,
        }
    }

    /// The type tag of the address: pure, total, derived from the
    /// variant alone.
    pub fn address_type_prefix(&self) -> (r: AddressTypePrefix)
        ensures
            r == spec_type_prefix(self@),
    {
        match self {
            Address::P2Pk(_) => AddressTypePrefix::P2Pk,
            Address::P2SH(_) => AddressTypePrefix::Pay2Sh,
            Address::P2S(_) => AddressTypePrefix::Pay2S,
        }
    }

    /// The payload bytes of the encoded form of this address.
    pub fn content_bytes(&self) -> (r: Vec<u8>)
        ensures
            r@ == spec_content_bytes(self@),
    {
        match self {
            Address::P2Pk(d) => d.h.to_vec(),
            Address::P2SH(h) => h.to_vec(),
            Address::P2S(t) => t.clone(),
        }
    }

    /// The single-step path from a raw public-key encoding: parse the
    /// point and wrap it directly as pay-to-public-key.
    pub fn from_public_key_bytes(bytes: &[u8]) -> (r: Result<Address, SigmaParsingError>)
        ensures
            match r {
                Ok(a) => {
                    &&& a.wf()
                    &&& a is P2Pk
                    &&& spec_parse_ec_point(bytes@) == Ok::<_, SigmaParsingError>(
                        spec_content_bytes(a@),
                    )
                },
                Err(e) => spec_parse_ec_point(bytes@) == Err::<Seq<u8>, _>(e),
            },
    {
        let point = EcPoint::sigma_parse_bytes(bytes)?;
        Ok(Address::P2Pk(ProveDlog::new(point)))
    }

    /// Derive the address a script denotes, by matching its root
    /// statement against the known templates.
    pub fn recreate_from_ergo_tree(tree: &ErgoTree) -> (r: Result<Address, AddressError>)
        requires
            tree.wf(),
        ensures
            match r {
                Ok(a) => a.wf() && a@ == spec_recreate(tree@),
                Err(_) => false,
            },
    {
        let n = tree.len();
        if n == 36 && tree.byte_at(0) == 0x00 && tree.byte_at(1) == 0x08 && tree.byte_at(2)
            == 0xcd {
            proof {
                assert(tree@.take(3) =~= p2pk_tree_prefix());
            }
            let mut payload: Vec<u8> = Vec::new();
            let mut i: usize = 3;
            while i < 36
                invariant
                    3 <= i <= 36,
                    tree@.len() == 36,
                    payload@ == tree@.subrange(3, i as int),
                decreases 36 - i,
            {
                payload.push(tree.byte_at(i));
                i = i + 1;
                proof {
                    assert(tree@.subrange(3, i as int) =~= tree@.subrange(3, i - 1).push(
                        tree@[i - 1],
                    ));
                }
            }
            proof {
                assert(payload@ =~= tree@.skip(3));
            }
            match EcPoint::from_bytes(payload) {
                Ok(p) => {
                    proof {
                        assert(tree@.skip(3).take(33) =~= tree@.skip(3));
                        assert(is_p2pk_tree(tree@));
                    }
                    Ok(Address::P2Pk(ProveDlog::new(p)))
                },
                Err(_) => {
                    proof {
                        assert(tree@.skip(3).take(33) =~= tree@.skip(3));
                        assert(!is_p2pk_tree(tree@));
                        assert(!is_p2sh_tree(tree@));
                    }
                    Ok(Address::P2S(tree.sigma_serialize_bytes()))
                },
            }
        } else if n == 39 && tree.byte_at(0) == 0x00 && tree.byte_at(1) == 0xea && tree.byte_at(2)
            == 0x93 && tree.byte_at(3) == 0xb1 && tree.byte_at(4) == 0x20 && tree.byte_at(37)
            == 0x73 && tree.byte_at(38) == 0x87 {
            proof {
                assert(tree@.take(5) =~= p2sh_tree_prefix());
                assert(tree@.skip(37) =~= p2sh_tree_suffix());
                assert(is_p2sh_tree(tree@));
                assert(!is_p2pk_tree(tree@));
            }
            let mut hash: Vec<u8> = Vec::new();
            let mut i: usize = 5;
            while i < 37
                invariant
                    5 <= i <= 37,
                    tree@.len() == 39,
                    hash@ == tree@.subrange(5, i as int),
                decreases 37 - i,
            {
                hash.push(tree.byte_at(i));
                i = i + 1;
                proof {
                    assert(tree@.subrange(5, i as int) =~= tree@.subrange(5, i - 1).push(
                        tree@[i - 1],
                    ));
                }
            }
            match Digest32::from_vec(hash) {
                Ok(d) => Ok(Address::P2SH(d)),
                Err(_) => {
                    proof {
                        assert(false);
                    }
                    Err(AddressError::UnparseableScript)
                },
            }
        } else {
            proof {
                assert(!is_p2pk_tree(tree@));
                assert(!is_p2sh_tree(tree@));
            }
            Ok(Address::P2S(tree.sigma_serialize_bytes()))
        }
    }

    /// The inverse consumption path: rebuild the script this address
    /// denotes. Pay-to-script hands back the retained bytes verbatim.
    pub fn script(&self) -> (r: Result<ErgoTree, AddressError>)
        requires
            self.wf(),
        ensures
            match r {
                Ok(t) => t.wf() && t@ == spec_script_of(self@),
                Err(_) => false,
            },
    {
        match self {
            Address::P2Pk(d) => {
                let mut bytes: Vec<u8> = Vec::new();
                bytes.push(0x00);
                bytes.push(0x08);
                bytes.push(0xcd);
                let mut point = d.h.to_vec();
                bytes.append(&mut point);
                proof {
                    assert(bytes@ =~= spec_script_of(self@));
                }
                match ErgoTree::from_vec(bytes) {
                    Ok(t) => Ok(t),
                    Err(_) => {
                        proof {
                            assert(false);
                        }
                        Err(AddressError::UnparseableScript)
                    },
                }
            },
            Address::P2SH(h) => {
                let mut bytes: Vec<u8> = Vec::new();
                bytes.push(0x00);
                bytes.push(0xea);
                bytes.push(0x93);
                bytes.push(0xb1);
                bytes.push(0x20);
                let mut hash = h.to_vec();
                bytes.append(&mut hash);
                bytes.push(0x73);
                bytes.push(0x87);
                proof {
                    assert(bytes@ =~= spec_script_of(self@));
                }
                match ErgoTree::from_vec(bytes) {
                    Ok(t) => Ok(t),
                    Err(_) => {
                        proof {
                            assert(false);
                        }
                        Err(AddressError::UnparseableScript)
                    },
                }
            },
            Address::P2S(t) => {
                match ErgoTree::from_vec(t.clone()) {
                    Ok(t) => Ok(t),
                    Err(_) => {
                        proof {
                            assert(false);
                        }
                        Err(AddressError::UnparseableScript)
                    },
                }
            },
        }
    }
}

/// Script and address agree: deriving an address back from the script
/// a pay-to-public-key or pay-to-script-hash address denotes yields the
/// original address content.
pub proof fn lemma_script_address_equivalence(a: Address)
    requires
        a.wf(),
        a is P2Pk || a is P2SH,
    ensures
        spec_recreate(spec_script_of(a@)) == a@,
{
    match a@ {
        AddressContent::P2Pk { point } => {
            let t = spec_script_of(a@);
            assert(t.take(3) =~= p2pk_tree_prefix());
            assert(t.skip(3) =~= point);
            assert(is_p2pk_tree(t));
            if point[0] == 0 {
                assert(normalize_point(point) == point);
            }
        },
        AddressContent::P2Sh { hash } => {
            let t = spec_script_of(a@);
            assert(t.take(5) =~= p2sh_tree_prefix());
            assert(t.skip(37) =~= p2sh_tree_suffix());
            assert(is_p2sh_tree(t));
            assert(!is_p2pk_tree(t));
            assert(t.subrange(5, 37) =~= hash);
        },
        AddressContent::P2S { .. } => {},
    }
}

} // verus!
