//! The reaction that destroys whatever ran into something.

use super::ReactingEntity;
use crate::effect::effect::Command;
use std::marker::PhantomData;
use vstd::prelude::*;

verus! {

/// The reaction that destroys the entity that an `Event` says ran into
/// something.
#[derive(Debug)]
pub struct EventDespawn<Event>(PhantomData<Event>);

impl<Event> Clone for EventDespawn<Event> {
    fn clone(&self) -> Self {
        Self(PhantomData)
    }
}

impl<Event> Copy for EventDespawn<Event> {

}

impl<Event> Default for EventDespawn<Event> {
    fn default() -> Self {
        Self(PhantomData)
    }
}

impl<Event: ReactingEntity> EventDespawn<Event> {
    /// The reaction.
    pub fn new() -> Self {
        Self(PhantomData)
    }

    /// Queues, for each event in turn, the destruction of the entity that
    /// ran into something, together with its children.
    pub fn check(commands: &mut Vec<Command>, events: &Vec<Event>)
        ensures
            final(commands)@ == old(commands)@ + Seq::new(
                events@.len(),
                |i: int| Command::DespawnRecursive(events@[i].spec_reacting_entity()),
            ),
    {
        let mut i: usize = 0;
        while i < events.len()
            invariant
                i <= events.len(),
                commands@ == old(commands)@ + Seq::new(
                    i as nat,
                    |j: int| Command::DespawnRecursive(events@[j].spec_reacting_entity()),
                ),
            decreases events.len() - i,
        {
            let entity = events[i].reacting_entity();
            commands.push(Command::DespawnRecursive(entity));
            i += 1;
        }
    }
}

} // verus!
