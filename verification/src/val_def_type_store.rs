//! Mapping from value-definition identifiers to their types, owned by
//! one type-checker invocation rather than held as ambient state.

use std::collections::HashMap;
use vstd::prelude::*;
use vstd::std_specs::hash::obeys_key_model;

verus! {

broadcast use vstd::std_specs::hash::group_hash_axioms;

/// Identifier of a value definition in a script.
#[derive(Debug, Clone, Copy, PartialEq, Eq, Hash, Structural)]
pub struct ValId(pub u32);

/// The type assigned to a value definition.
#[derive(Debug, Clone, Copy, PartialEq, Eq, Structural)]
pub enum SType {
    /// Any type.
    SAny,
    /// The unit type.
    SUnit,
    /// Boolean.
    SBoolean,
    /// Signed 8-bit integer.
    SByte,
    /// Signed 16-bit integer.
    SShort,
    /// Signed 32-bit integer.
    SInt,
    /// Signed 64-bit integer.
    SLong,
    /// Arbitrary-precision integer.
    SBigInt,
    /// A point of the proof system's group.
    SGroupElement,
    /// A proof statement.
    SSigmaProp,
}

/// The types recorded for value definitions seen so far.
pub struct ValDefTypeStore {
    map: HashMap<u32, SType>,
}

impl View for ValDefTypeStore {
    type V = Map<u32, SType>;

    closed spec fn view(&self) -> Map<u32, SType> {
        self.map@
    }
}

impl ValDefTypeStore {
    /// An empty store.
    pub fn new() -> (r: ValDefTypeStore)
        ensures
            r@ == Map::<u32, SType>::empty(),
    {
        proof {
            assert(obeys_key_model::<u32>());
        }
        ValDefTypeStore { map: HashMap::new() }
    }

    /// Record the type of a definition, replacing any earlier record
    /// for the same identifier.
    pub fn insert(&mut self, id: ValId, tpe: SType)
        ensures
            final(self)@ == old(self)@.insert(id.0, tpe),
    {
        self.map.insert(id.0, tpe);
    }

    /// The type recorded for a definition, if any.
    pub fn get(&self, id: &ValId) -> (r: Option<&SType>)
        ensures
            match r {
                Some(t) => self@.contains_key(id.0) && *t == self@[id.0],
                None => !self@.contains_key(id.0),
            },
    {
        self.map.get(&id.0)
    }
}

impl Default for ValDefTypeStore {
    /// The default store is empty.
    fn default() -> (r: ValDefTypeStore)
        ensures
            r@ == Map::<u32, SType>::empty(),
    {
        ValDefTypeStore::new()
    }
}

} // verus!
