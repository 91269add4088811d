//! Attributes and the reactions of abilities.

pub mod attribute;
pub mod react;
