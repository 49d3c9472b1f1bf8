//! The spending script: an opaque, versioned container of serialized
//! proof-statement bytes. The core never looks inside it beyond
//! pattern-matching its bytes against the two fixed guard templates.

use vstd::prelude::*;

use crate::crypto::sec1_point_valid;
use crate::serialization::SigmaParsingError;

verus! {

/// The serialized form of a script whose root statement is one bare
/// discrete-log statement: the fixed three-byte head, then the
/// compressed point.
pub open spec fn p2pk_tree_prefix() -> Seq<u8> {
    seq![0x00u8, 0x08u8, 0xcdu8]
}

/// Head of the protocol's fixed script-hash guard template: the bytes
/// of the guard script that stand before the embedded digest.
pub open spec fn p2sh_tree_prefix() -> Seq<u8> {
    seq![0x00u8, 0xeau8, 0x93u8, 0xb1u8, 0x20u8]
}

/// Tail of the script-hash guard template, after the embedded digest.
pub open spec fn p2sh_tree_suffix() -> Seq<u8> {
    seq![0x73u8, 0x87u8]
}

/// Whether tree bytes are the script of a bare discrete-log statement:
/// the fixed head followed by 33 bytes that decompress to a point.
pub open spec fn is_p2pk_tree(t: Seq<u8>) -> bool {
    &&& t.len() == 36
    &&& t.take(3) == p2pk_tree_prefix()
    &&& (t[3] != 0 ==> sec1_point_valid(t.skip(3)))
}

/// Whether tree bytes are the script-hash guard template around a
/// 32-byte digest.
pub open spec fn is_p2sh_tree(t: Seq<u8>) -> bool {
    &&& t.len() == 39
    &&& t.take(5) == p2sh_tree_prefix()
    &&& t.skip(37) == p2sh_tree_suffix()
}

/// A parsed spending script. It owns its bytes; validity means the
/// versioned container is present at all, its inside stays opaque.
#[derive(Debug, Clone, PartialEq, Eq, Hash)]
pub struct ErgoTree {
    bytes: Vec<u8>,
}

impl View for ErgoTree {
    type V = Seq<u8>;

    closed spec fn view(&self) -> Seq<u8> {
        self.bytes@
    }
}

impl ErgoTree {
    /// A script has at least its header byte.
    pub open spec fn wf(&self) -> bool {
        self@.len() >= 1
    }

    /// Parse a script from its serialized bytes; fails on an empty
    /// buffer, which holds no container at all.
    pub fn sigma_parse_bytes(bytes: &[u8]) -> (r: Result<ErgoTree, SigmaParsingError>)
        ensures
            match r {
                Ok(t) => bytes@.len() >= 1 && t.wf() && t@ == bytes@,
                Err(e) => bytes@.len() == 0 && e == SigmaParsingError::UnexpectedEof,
            },
    {
        if bytes.len() == 0 {
            Err(SigmaParsingError::UnexpectedEof)
        } else {
            Ok(ErgoTree { bytes: vstd::slice::slice_to_vec(bytes) })
        }
    }

    /// Wrap already-owned script bytes; fails on an empty buffer.
    pub fn from_vec(bytes: Vec<u8>) -> (r: Result<ErgoTree, SigmaParsingError>)
        ensures
            match r {
                Ok(t) => bytes@.len() >= 1 && t.wf() && t@ == bytes@,
                Err(e) => bytes@.len() == 0 && e == SigmaParsingError::UnexpectedEof,
            },
    {
        if bytes.len() == 0 {
            Err(SigmaParsingError::UnexpectedEof)
        } else {
            Ok(ErgoTree { bytes })
        }
    }

    /// The script's serialized bytes, verbatim.
    pub fn sigma_serialize_bytes(&self) -> (r: Vec<u8>)
        ensures
            r@ == self@,
    {
        self.bytes.clone()
    }

    /// The script's length in bytes.
    pub fn len(&self) -> (r: usize)
        ensures
            r == self@.len(),
    {
        self.bytes.len()
    }

    /// Read one byte of the script.
    pub fn byte_at(&self, i: usize) -> (r: u8)
        requires
            i < self@.len(),
        ensures
            r == self@[i as int],
    {
        self.bytes[i]
    }
}

} // verus!
