//! Per-entity numeric attributes and the layers that modify them.

pub mod attribute;
pub mod health;
pub mod regen;
