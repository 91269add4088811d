//! Hits on walls.

use super::{AbsorbingEntity, Intersection, ReactingEntity};
use crate::entity::Entity;
use vstd::prelude::*;
use vstd::std_specs::convert::FromSpecImpl;

verus! {

/// Marker: this entity is a wall.
#[derive(Debug, Copy, Clone, Default)]
pub struct Wall;

/// Event: something hit a wall.
#[derive(Debug, Copy, Clone)]
pub struct HitWall {
    intersection: Intersection,
}

impl HitWall {
    /// The intersection that the event stands for, in contracts.
    pub closed spec fn spec_intersection(&self) -> Intersection {
        self.intersection
    }

    /// The intersection that the event stands for.
    #[verifier::when_used_as_spec(spec_intersection)]
    pub fn intersection(&self) -> (r: Intersection)
        ensures
            r == self.intersection(),
    {
        self.intersection
    }
}

impl From<Intersection> for HitWall {
    fn from(event: Intersection) -> (r: Self)
        ensures
            r.intersection() == event,
    {
        Self { intersection: event }
    }
}

impl FromSpecImpl<Intersection> for HitWall {
    open spec fn obeys_from_spec() -> bool {
        true
    }

    closed spec fn from_spec(event: Intersection) -> Self {
        Self { intersection: event }
    }
}

impl ReactingEntity for HitWall {
    open spec fn spec_reacting_entity(&self) -> Entity {
        self.intersection().collider1
    }

    fn reacting_entity(&self) -> (e: Entity) {
        self.intersection.collider1
    }
}

impl AbsorbingEntity for HitWall {
    open spec fn spec_absorbing_entity(&self) -> Entity {
        self.intersection().collider2
    }

    fn absorbing_entity(&self) -> (e: Entity) {
        self.intersection.collider2
    }
}

} // verus!
