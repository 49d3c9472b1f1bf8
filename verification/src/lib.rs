//! Core binary-encoding and address-derivation layer for an Ergo-style
//! blockchain client: digests, box identifiers, elliptic-curve points,
//! spending scripts, and checksummed base-58 addresses.

pub mod address;
pub mod base16;
pub mod box_id;
pub mod crypto;
pub mod digest32;
pub mod ec_point;
pub mod encode;
pub mod ergo_tree;
pub mod lexer;
pub mod serialization;
pub mod token_kind;
pub mod val_def_type_store;

use vstd::prelude::*;

verus! {

} // verus!
