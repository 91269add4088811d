//! Effect entities, the markers that ask for their removal, and the deferred
//! world changes that the host carries out.

use crate::entity::Entity;
use std::marker::PhantomData;
use vstd::prelude::*;

verus! {

/// Marker: the component of type `T` is to be taken off this entity at the
/// end of the tick.
#[derive(PartialEq, Debug)]
pub struct Remove<T>(PhantomData<T>);

impl<T> Clone for Remove<T> {
    fn clone(&self) -> Self {
        Remove(PhantomData)
    }
}

impl<T> Default for Remove<T> {
    fn default() -> Self {
        Remove(PhantomData)
    }
}

/// Marker: this entity is to be destroyed at the end of the tick.
#[derive(PartialEq, Debug, Clone)]
pub struct Despawn;

/// A deferred change to an entity as a whole.
#[derive(PartialEq, Eq, Structural, Debug, Clone, Copy)]
pub enum Command {
    /// Destroy the entity.
    Despawn(Entity),
    /// Destroy the entity and its children.
    DespawnRecursive(Entity),
}

/// A deferred change to the component of type `T` on an entity.
#[derive(Debug, Clone)]
pub enum ComponentCommand<T> {
    /// Put the component on the entity, in place of one that is there.
    Insert(Entity, T),
    /// Take the component off the entity, if it is there.
    Remove(Entity),
}

impl<T> ComponentCommand<T> {
    /// The entity that the change is for.
    pub open spec fn spec_entity(&self) -> Entity {
        match self {
            ComponentCommand::Insert(e, _) => *e,
            ComponentCommand::Remove(e) => *e,
        }
    }

    /// The entity that the change is for.
    #[verifier::when_used_as_spec(spec_entity)]
    pub fn entity(&self) -> (e: Entity)
        ensures
            e == self.entity(),
    {
        match self {
            ComponentCommand::Insert(e, _) => *e,
            ComponentCommand::Remove(e) => *e,
        }
    }
}

/// Queues the destruction of every entity that carries the [`Despawn`]
/// marker, in the order given.
pub fn cleanup_despawning(commands: &mut Vec<Command>, despawning: &Vec<Entity>)
    ensures
        final(commands)@ == old(commands)@ + Seq::new(
            despawning@.len(),
            |i: int| Command::Despawn(despawning@[i]),
        ),
{
    let mut i: usize = 0;
    while i < despawning.len()
        invariant
            i <= despawning.len(),
            commands@ == old(commands)@ + Seq::new(
                i as nat,
                |j: int| Command::Despawn(despawning@[j]),
            ),
        decreases despawning.len() - i,
    {
        commands.push(Command::Despawn(despawning[i]));
        i += 1;
    }
}

/// Queues the removal of the component `T` from every entity that carries
/// the [`Remove<T>`] marker, in the order given.
pub fn cleanup_removing<T>(commands: &mut Vec<ComponentCommand<T>>, removing: &Vec<Entity>)
    ensures
        final(commands)@ == old(commands)@ + Seq::new(
            removing@.len(),
            |i: int| ComponentCommand::<T>::Remove(removing@[i]),
        ),
{
    let mut i: usize = 0;
    while i < removing.len()
        invariant
            i <= removing.len(),
            commands@ == old(commands)@ + Seq::new(
                i as nat,
                |j: int| ComponentCommand::<T>::Remove(removing@[j]),
            ),
        decreases removing.len() - i,
    {
        commands.push(ComponentCommand::Remove(removing[i]));
        i += 1;
    }
}

/// A relation from a dependent entity to the entity that owns it.
pub trait Relation {
    /// The owner, in contracts.
    spec fn spec_owner(&self) -> Entity;

    /// The owner.
    fn owner(&self) -> (e: Entity)
        ensures
            e == self.spec_owner(),
    ;
}

/// The entity that an effect entity affects: a player, a mob.
#[derive(PartialEq, Eq, Structural, Debug, Clone, Copy)]
pub struct EffectTarget(pub Entity);

impl EffectTarget {
    /// The entity that the effect affects.
    pub fn entity(&self) -> (e: Entity)
        ensures
            e == self.0,
    {
        self.0
    }
}

impl Relation for EffectTarget {
    open spec fn spec_owner(&self) -> Entity {
        self.0
    }

    fn owner(&self) -> (e: Entity) {
        self.0
    }
}

/// The ability that an effect entity came from.
#[derive(PartialEq, Eq, Structural, Debug, Clone, Copy)]
pub struct FromAbility(pub Entity);

} // verus!
