//! Derived state for a tick-driven entity simulation.
//!
//! Two things are kept up to date here, tick by tick:
//!
//! - **attributes**: numeric values on entities that are folded from layers
//!   (base, mult, add), held in bounds (max, min) and regenerated; see
//!   [`ability::attribute`];
//! - **effect stacks**: the contributions of many effect entities to one
//!   owner, reduced to one marker on that owner, and the cache that still
//!   knows the owner of an effect entity when the entity itself is gone; see
//!   [`effect`].
//!
//! The library holds no world. The host reads its world, hands over what it
//! found as plain values, and carries out the commands that it gets back.
//! What a function promises is stated in its contract and proved; the laws
//! that tie several functions together stand beside them as proof functions.

pub mod ability;
pub mod amount;
pub mod effect;
pub mod entity;
pub mod schedule;
pub mod stun;
