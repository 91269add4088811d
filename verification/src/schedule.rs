//! The phases of a tick. A tick runs the phases in one fixed order, and what
//! a later phase reads is what the earlier ones have left behind.

use vstd::prelude::*;

verus! {

/// A phase of the tick.
#[derive(Clone, Copy, Debug, PartialEq, Eq, Structural, Hash)]
pub enum Phase {
    /// Relations are cached.
    PreUpdate,
    /// Modifiers are folded in and effect contributions are applied.
    Update,
    /// Attributes are clamped, effect contributions are removed and markers
    /// are brought in line.
    PostUpdate,
    /// The markers that ask for removal or destruction are consumed, and the
    /// caches are purged.
    Last,
}

impl Phase {
    /// The place of the phase in the tick, in contracts.
    pub open spec fn spec_index(self) -> u8 {
        match self {
            Phase::PreUpdate => 0,
            Phase::Update => 1,
            Phase::PostUpdate => 2,
            Phase::Last => 3,
        }
    }

    /// The place of the phase in the tick.
    #[verifier::when_used_as_spec(spec_index)]
    pub fn index(self) -> (i: u8)
        ensures
            i == self.index(),
    {
        match self {
            Phase::PreUpdate => 0,
            Phase::Update => 1,
            Phase::PostUpdate => 2,
            Phase::Last => 3,
        }
    }
}

} // verus!
