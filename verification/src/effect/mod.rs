//! Effects: entities that contribute a state to the entity they target.

pub mod burn;
pub mod effect;
pub mod relation;
pub mod set;
pub mod stack;
pub mod upkeep;
