//! Reactions to one entity running into another.

pub mod damage;
pub mod despawn;
pub mod wall;

use crate::effect::effect::Command;
use crate::entity::Entity;
use vstd::prelude::*;
use vstd::std_specs::convert::FromSpec;

verus! {

/// Two entities whose shapes have started or stopped to overlap, as the
/// physics of the host reports it.
#[derive(PartialEq, Eq, Structural, Debug, Clone, Copy)]
pub struct Intersection {
    /// The entity that runs into the other.
    pub collider1: Entity,
    /// The entity that is run into.
    pub collider2: Entity,
    /// Whether the two overlap now.
    pub intersecting: bool,
}

/// What an entity does when an event reaches it.
pub trait React {
    /// What the entity has to carry for the event to reach it.
    type Marker;

    /// What reaches the entity.
    type Event;

    /// Queues what the entity does about `event`.
    fn react(&self, commands: &mut Vec<Command>, event: &Self::Event, m: &Self::Marker);
}

/// An event that knows which entity ran into something.
pub trait ReactingEntity {
    /// The entity that ran into something, in contracts.
    spec fn spec_reacting_entity(&self) -> Entity;

    /// The entity that ran into something.
    fn reacting_entity(&self) -> (e: Entity)
        ensures
            e == self.spec_reacting_entity(),
    ;
}

/// An event that knows which entity was run into.
pub trait AbsorbingEntity {
    /// The entity that was run into, in contracts.
    spec fn spec_absorbing_entity(&self) -> Entity;

    /// The entity that was run into.
    fn absorbing_entity(&self) -> (e: Entity)
        ensures
            e == self.spec_absorbing_entity(),
    ;
}

/// Whether `entity` is among `entities`.
pub open spec fn among(entities: Seq<Entity>, entity: Entity) -> bool {
    exists|i: int| 0 <= i < entities.len() && #[trigger] entities[i] == entity
}

/// Whether `entity` is among `entities`.
pub fn is_among(entities: &Vec<Entity>, entity: Entity) -> (b: bool)
    ensures
        b == among(entities@, entity),
{
    let mut i: usize = 0;
    while i < entities.len()
        invariant
            i <= entities.len(),
            forall|j: int| 0 <= j < i ==> entities@[j] != entity,
        decreases entities.len() - i,
    {
        if entities[i] == entity {
            return true;
        }
        i += 1;
    }
    false
}

/// The intersections in which the entity that is run into carries the
/// marker, in the order in which they came.
pub open spec fn absorbed(intersections: Seq<Intersection>, marked: Seq<Entity>) -> Seq<
    Intersection,
>
    decreases intersections.len(),
{
    if intersections.len() == 0 {
        intersections
    } else if among(marked, intersections.last().collider2) {
        absorbed(intersections.drop_last(), marked).push(intersections.last())
    } else {
        absorbed(intersections.drop_last(), marked)
    }
}

/// The events that stand for the intersections `hits`.
pub open spec fn events_of<Event: From<Intersection>>(hits: Seq<Intersection>) -> Seq<Event> {
    Seq::new(hits.len(), |i: int| Event::from_spec(hits[i]))
}

/// Sends an event for every intersection in which the entity that is run
/// into is one of `marked`, the entities that carry the marker. The events
/// come in the order of the intersections, and each is what `Event::from`
/// makes of its intersection.
pub fn intersection_event<Event: From<Intersection>>(
    intersection_events: &Vec<Intersection>,
    events: &mut Vec<Event>,
    marked: &Vec<Entity>,
)
    ensures
        final(events)@.len() == old(events)@.len() + absorbed(intersection_events@, marked@).len(),
        final(events)@.take(old(events)@.len() as int) == old(events)@,
        forall|i: int|
            0 <= i < absorbed(intersection_events@, marked@).len() ==> call_ensures(
                Event::from,
                (#[trigger] absorbed(intersection_events@, marked@)[i],),
                final(events)@[old(events)@.len() + i],
            ),
        Event::obeys_from_spec() ==> final(events)@ == old(events)@ + events_of::<Event>(
            absorbed(intersection_events@, marked@),
        ),
{
    let mut i: usize = 0;
    while i < intersection_events.len()
        invariant
            i <= intersection_events.len(),
            events@.len() == old(events)@.len() + absorbed(
                intersection_events@.take(i as int),
                marked@,
            ).len(),
            events@.take(old(events)@.len() as int) == old(events)@,
            forall|k: int|
                0 <= k < absorbed(intersection_events@.take(i as int), marked@).len()
                    ==> call_ensures(
                    Event::from,
                    (#[trigger] absorbed(intersection_events@.take(i as int), marked@)[k],),
                    events@[old(events)@.len() + k],
                ),
            Event::obeys_from_spec() ==> events@ == old(events)@ + events_of::<Event>(
                absorbed(intersection_events@.take(i as int), marked@),
            ),
        decreases intersection_events.len() - i,
    {
        let intersection = intersection_events[i];
        proof {
            assert(intersection_events@.take(i + 1).drop_last() == intersection_events@.take(
                i as int,
            ));
        }
        let absorbing_entity = intersection.collider2;
        if is_among(marked, absorbing_entity) {
            events.push(Event::from(intersection));
        }
        i += 1;
    }
    proof {
        assert(intersection_events@.take(intersection_events@.len() as int)
            == intersection_events@);
    }
}

} // verus!
