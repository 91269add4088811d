//! Hits on entities that can be damaged.

use super::{among, is_among, AbsorbingEntity, Intersection, ReactingEntity};
use crate::entity::Entity;
use std::marker::PhantomData;
use vstd::prelude::*;
use vstd::std_specs::convert::FromSpecImpl;

verus! {

/// Marker: this entity takes damage to its `Stat` when it is hit.
#[derive(Debug)]
pub struct Damageable<Stat>(PhantomData<Stat>);

impl<Stat> Clone for Damageable<Stat> {
    fn clone(&self) -> Self {
        Damageable(PhantomData)
    }
}

impl<Stat> Copy for Damageable<Stat> {

}

impl<Stat> Default for Damageable<Stat> {
    fn default() -> Self {
        Damageable(PhantomData)
    }
}

/// Event: something hit an entity that takes damage to its `Stat`.
#[derive(Debug)]
pub struct HitDamageable<Stat> {
    intersection: Intersection,
    phantom: PhantomData<Stat>,
}

impl<Stat> Clone for HitDamageable<Stat> {
    fn clone(&self) -> (r: Self)
        ensures
            r == *self,
    {
        Self { intersection: self.intersection, phantom: PhantomData }
    }
}

impl<Stat> Copy for HitDamageable<Stat> {

}

impl<Stat> HitDamageable<Stat> {
    /// The intersection that the event stands for, in contracts.
    pub closed spec fn spec_intersection(&self) -> Intersection {
        self.intersection
    }

    /// The intersection that the event stands for.
    #[verifier::when_used_as_spec(spec_intersection)]
    pub fn intersection(&self) -> (r: Intersection)
        ensures
            r == self.intersection(),
    {
        self.intersection
    }
}

impl<Stat> From<Intersection> for HitDamageable<Stat> {
    fn from(event: Intersection) -> (r: Self)
        ensures
            r.intersection() == event,
    {
        Self { intersection: event, phantom: PhantomData }
    }
}

impl<Stat> FromSpecImpl<Intersection> for HitDamageable<Stat> {
    open spec fn obeys_from_spec() -> bool {
        true
    }

    closed spec fn from_spec(event: Intersection) -> Self {
        Self { intersection: event, phantom: PhantomData }
    }
}

impl<Stat> ReactingEntity for HitDamageable<Stat> {
    open spec fn spec_reacting_entity(&self) -> Entity {
        self.intersection().collider1
    }

    fn reacting_entity(&self) -> (e: Entity) {
        self.intersection.collider1
    }
}

impl<Stat> AbsorbingEntity for HitDamageable<Stat> {
    open spec fn spec_absorbing_entity(&self) -> Entity {
        self.intersection().collider2
    }

    fn absorbing_entity(&self) -> (e: Entity) {
        self.intersection.collider2
    }
}

/// Stat tag: health.
#[derive(Debug, Copy, Clone, Default)]
pub struct Health;

/// The reaction that damages the attribute `Attribute` of the entity that an
/// `Event` says was hit.
#[derive(Debug)]
pub struct EventDamage<Attribute, Event = HitDamageable<Attribute>>(
    PhantomData<(Attribute, Event)>,
);

impl<Attribute, Event> Clone for EventDamage<Attribute, Event> {
    fn clone(&self) -> Self {
        Self(PhantomData)
    }
}

impl<Attribute, Event> Copy for EventDamage<Attribute, Event> {

}

impl<Attribute, Event> Default for EventDamage<Attribute, Event> {
    fn default() -> Self {
        Self(PhantomData)
    }
}

/// The entities that `events` say were hit and that are among `stat`, in the
/// order of the events.
pub open spec fn damaged<Event: AbsorbingEntity>(events: Seq<Event>, stat: Seq<Entity>) -> Seq<
    Entity,
>
    decreases events.len(),
{
    if events.len() == 0 {
        Seq::empty()
    } else if among(stat, events.last().spec_absorbing_entity()) {
        damaged(events.drop_last(), stat).push(events.last().spec_absorbing_entity())
    } else {
        damaged(events.drop_last(), stat)
    }
}

impl<A, Event: ReactingEntity + AbsorbingEntity> EventDamage<A, Event> {
    /// The reaction.
    pub fn new() -> Self {
        Self(PhantomData)
    }

    /// The entities to damage: for each event, the entity that was hit,
    /// where it is one of `stat`, the entities that have the attribute.
    pub fn check(events: &Vec<Event>, stat: &Vec<Entity>) -> (hit: Vec<Entity>)
        ensures
            hit@ == damaged(events@, stat@),
    {
        let mut hit: Vec<Entity> = Vec::new();
        let mut i: usize = 0;
        while i < events.len()
            invariant
                i <= events.len(),
                hit@ == damaged(events@.take(i as int), stat@),
            decreases events.len() - i,
        {
            proof {
                assert(events@.take(i + 1).drop_last() == events@.take(i as int));
            }
            let absorbing = events[i].absorbing_entity();
            if is_among(stat, absorbing) {
                hit.push(absorbing);
            }
            i += 1;
        }
        proof {
            assert(events@.take(events@.len() as int) == events@);
        }
        hit
    }
}

} // verus!
