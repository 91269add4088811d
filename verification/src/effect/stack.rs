//! Effect stacks: the contributions of many effect entities to one owner,
//! reduced to the presence or absence of one marker on that owner.

use super::relation::{ids, lemma_ids_push};
use super::set::{
    smolset_contents, smolset_insert, smolset_len, smolset_new, smolset_remove, EntitySet,
};
use crate::entity::Entity;
use std::marker::PhantomData;
use vstd::prelude::*;

verus! {

/// How the effects of one kind stack on an owner.
pub trait EffectStack: Sized {
    /// What an effect entity carries.
    type EffectComponent;

    /// What the owner carries while the stack is alive.
    type TargetEffectComponent;

    /// What the stack is in contracts: a set of entities, a count, a
    /// duration.
    type Model;

    /// Whether the stack is well formed. Every constructor gives a stack
    /// that is, and every method keeps it so.
    spec fn inv(&self) -> bool;

    /// The stack, in contracts.
    spec fn model(&self) -> Self::Model;

    /// The stack after one contribution has been merged in.
    spec fn applied(
        model: Self::Model,
        comp: Self::EffectComponent,
        entity: Entity,
    ) -> Self::Model;

    /// The stack after one contribution has been undone.
    spec fn removed(
        model: Self::Model,
        comp: Option<Self::EffectComponent>,
        entity: Entity,
    ) -> Self::Model;

    /// Whether the stack still holds a contribution.
    spec fn model_alive(model: Self::Model) -> bool;

    /// Whether `target` is what the stack puts on its owner.
    spec fn installs(model: Self::Model, target: Self::TargetEffectComponent) -> bool;

    /// Merges the contribution of the effect entity `entity` into the stack.
    fn apply(&mut self, comp: &Self::EffectComponent, entity: Entity)
        requires
            old(self).inv(),
        ensures
            final(self).inv(),
            final(self).model() == Self::applied(old(self).model(), *comp, entity),
    ;

    /// Undoes the contribution of the effect entity `entity`. `comp` is the
    /// effect component as last seen, where it is still known.
    fn remove(&mut self, comp: Option<&Self::EffectComponent>, entity: Entity)
        requires
            old(self).inv(),
        ensures
            final(self).inv(),
            final(self).model() == Self::removed(
                old(self).model(),
                match comp {
                    Some(c) => Some(*c),
                    None => None,
                },
                entity,
            ),
    ;

    /// Whether the stack still holds a contribution.
    fn alive(&self) -> (b: bool)
        requires
            self.inv(),
        ensures
            b == Self::model_alive(self.model()),
    ;

    /// What the owner is to carry while the stack is alive.
    fn target_effect(&self) -> (target: Self::TargetEffectComponent)
        requires
            self.inv(),
        ensures
            Self::installs(self.model(), target),
    ;
}

/// A stack that holds the set of the effect entities that contribute, and
/// reduces them to one marker: an entity counts once however often it is
/// applied.
#[derive(Debug)]
pub struct ReduceStack<Effect, TargetEffect> {
    set: EntitySet,
    phantom: PhantomData<(Effect, TargetEffect)>,
}

impl<E, T> View for ReduceStack<E, T> {
    type V = Set<u64>;

    /// The identifiers of the effect entities that contribute.
    closed spec fn view(&self) -> Set<u64> {
        smolset_contents(self.set)
    }
}

impl<E, T> Default for ReduceStack<E, T> {
    fn default() -> (r: Self)
        ensures
            r.wf(),
            r@ == Set::<u64>::empty(),
    {
        Self { set: smolset_new(), phantom: PhantomData }
    }
}

impl<E, T> ReduceStack<E, T> {
    /// Whether the stack is well formed: it holds finitely many entities.
    pub open spec fn wf(&self) -> bool {
        self@.finite()
    }

    /// A stack to which nothing contributes.
    pub fn new() -> (r: Self)
        ensures
            r.wf(),
            r@ == Set::<u64>::empty(),
    {
        Self { set: smolset_new(), phantom: PhantomData }
    }

    /// The number of effect entities that contribute.
    pub fn len(&self) -> (n: usize)
        requires
            self.wf(),
        ensures
            n == self@.len(),
    {
        smolset_len(&self.set)
    }
}

/// Effect component: the entity that this effect targets cannot act.
#[derive(PartialEq, Eq, Structural, Clone, Copy, Debug, Default)]
pub struct Stun;

/// Target marker: this entity cannot act.
#[derive(PartialEq, Eq, Structural, Clone, Copy, Debug, Default)]
pub struct Stunned;

impl<E, T: Default> EffectStack for ReduceStack<E, T> {
    type EffectComponent = E;

    type TargetEffectComponent = T;

    type Model = Set<u64>;

    open spec fn inv(&self) -> bool {
        self.wf()
    }

    open spec fn model(&self) -> Set<u64> {
        self@
    }

    open spec fn applied(model: Set<u64>, comp: E, entity: Entity) -> Set<u64> {
        model.insert(entity@)
    }

    open spec fn removed(model: Set<u64>, comp: Option<E>, entity: Entity) -> Set<u64> {
        model.remove(entity@)
    }

    open spec fn model_alive(model: Set<u64>) -> bool {
        exists|id: u64| model.contains(id)
    }

    /// The marker is the default value of its type.
    open spec fn installs(model: Set<u64>, target: T) -> bool {
        call_ensures(T::default, (), target)
    }

    fn apply(&mut self, _comp: &E, entity: Entity) {
        smolset_insert(&mut self.set, entity.to_bits());
    }

    fn remove(&mut self, _comp: Option<&E>, entity: Entity) {
        smolset_remove(&mut self.set, entity.to_bits());
    }

    fn alive(&self) -> (b: bool) {
        let n = self.len();
        proof {
            if n == 0 {
                self@.lemma_len0_is_empty();
            } else {
                assert(self@.contains(self@.choose()));
            }
        }
        n > 0
    }

    fn target_effect(&self) -> (target: T) {
        T::default()
    }
}

/// The set after the entities in `entities` have been applied to a stack of
/// the set kind, one by one.
pub open spec fn gathered(model: Set<u64>, entities: Seq<Entity>) -> Set<u64>
    decreases entities.len(),
{
    if entities.len() == 0 {
        model
    } else {
        gathered(model, entities.drop_last()).insert(entities.last()@)
    }
}

/// The set after the entities in `entities` have been removed from a stack
/// of the set kind, one by one.
pub open spec fn released(model: Set<u64>, entities: Seq<Entity>) -> Set<u64>
    decreases entities.len(),
{
    if entities.len() == 0 {
        model
    } else {
        released(model, entities.drop_last()).remove(entities.last()@)
    }
}

/// Applying entities to a set adds their identifiers to it.
pub proof fn lemma_gathered(model: Set<u64>, entities: Seq<Entity>)
    ensures
        gathered(model, entities) == model.union(ids(entities)),
    decreases entities.len(),
{
    if entities.len() > 0 {
        lemma_gathered(model, entities.drop_last());
        lemma_ids_push(entities);
    }
}

/// Removing entities from a set takes their identifiers out of it.
pub proof fn lemma_released(model: Set<u64>, entities: Seq<Entity>)
    ensures
        released(model, entities) == model.difference(ids(entities)),
    decreases entities.len(),
{
    if entities.len() > 0 {
        lemma_released(model, entities.drop_last());
        lemma_ids_push(entities);
    }
}

/// A stack of the set kind to which the entities `applied` were applied and
/// from which the entities `removed` were then removed holds those of the
/// first that are not among the second. So it is alive if and only if one
/// contribution remains; and once all that were applied have been removed,
/// it is not.
pub proof fn lemma_stack_round_trip<E, T: Default>(applied: Seq<Entity>, removed: Seq<Entity>)
    ensures
        released(gathered(Set::empty(), applied), removed) == ids(applied).difference(
            ids(removed),
        ),
        ReduceStack::<E, T>::model_alive(released(gathered(Set::empty(), applied), removed))
            <==> exists|i: int|
            0 <= i < applied.len() && !ids(removed).contains(#[trigger] applied[i]@),
        !ReduceStack::<E, T>::model_alive(released(gathered(Set::empty(), applied), applied)),
{
    let full = gathered(Set::empty(), applied);
    lemma_gathered(Set::empty(), applied);
    lemma_released(full, removed);
    lemma_released(full, applied);
    let left = released(full, removed);
    if exists|i: int| 0 <= i < applied.len() && !ids(removed).contains(#[trigger] applied[i]@) {
        let i = choose|i: int|
            0 <= i < applied.len() && !ids(removed).contains(#[trigger] applied[i]@);
        assert(left.contains(applied[i]@));
    }
}

} // verus!
