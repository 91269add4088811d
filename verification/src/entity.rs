//! Entity identifiers.

use vstd::prelude::*;

verus! {

/// An opaque identifier of one simulated object.
#[derive(Clone, Copy, Debug, PartialEq, Eq, Structural, Hash)]
pub struct Entity {
    /// The identifier as one integer.
    pub bits: u64,
}

impl View for Entity {
    type V = u64;

    /// The identifier as one integer.
    open spec fn view(&self) -> u64 {
        self.bits
    }
}

impl Entity {
    /// The entity with the given identifier.
    pub fn from_bits(bits: u64) -> (e: Entity)
        ensures
            e@ == bits,
    {
        Entity { bits }
    }

    /// The identifier as one integer.
    pub fn to_bits(self) -> (bits: u64)
        ensures
            bits == self@,
    {
        self.bits
    }
}

} // verus!
