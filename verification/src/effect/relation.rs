//! The relation cache: which entity owns which dependent, kept until the
//! removal of the relation has been dealt with.

use super::effect::Relation;
use crate::entity::Entity;
use std::collections::HashMap;
use std::marker::PhantomData;
use vstd::prelude::*;

verus! {

broadcast use vstd::std_specs::hash::group_hash_axioms;

/// For the relation `R`, the owner of each dependent entity, as last seen.
/// An entry outlives the relation component that it was taken from: it stays
/// until [`RelationCache::cleanup`] is told that the component is gone.
pub struct RelationCache<R> {
    owners: HashMap<u64, u64>,
    relation: PhantomData<R>,
}

impl<R> View for RelationCache<R> {
    type V = Map<u64, u64>;

    /// The owner's identifier by the dependent's.
    closed spec fn view(&self) -> Map<u64, u64> {
        self.owners@
    }
}

/// The map after the relations `changed` have been entered one by one, each
/// in place of an older entry for the same dependent.
pub open spec fn entered<R: Relation>(map: Map<u64, u64>, changed: Seq<(Entity, R)>) -> Map<
    u64,
    u64,
>
    decreases changed.len(),
{
    if changed.len() == 0 {
        map
    } else {
        entered(map, changed.drop_last()).insert(
            changed.last().0@,
            changed.last().1.spec_owner()@,
        )
    }
}

/// The identifiers of the entities in `entities`.
pub open spec fn ids(entities: Seq<Entity>) -> Set<u64> {
    Set::new(|id: u64| exists|i: int| 0 <= i < entities.len() && #[trigger] entities[i]@ == id)
}

impl<R: Relation> RelationCache<R> {
    /// A cache with no entry.
    pub fn new() -> (r: Self)
        ensures
            r@ == Map::<u64, u64>::empty(),
    {
        RelationCache { owners: HashMap::new(), relation: PhantomData }
    }

    /// Enters the owner of every entity whose relation component changed
    /// this tick, in place of what the cache held for that entity.
    pub fn cache(&mut self, changed: &Vec<(Entity, R)>)
        ensures
            final(self)@ == entered(old(self)@, changed@),
    {
        let mut i: usize = 0;
        while i < changed.len()
            invariant
                i <= changed.len(),
                self@ == entered(old(self)@, changed@.take(i as int)),
            decreases changed.len() - i,
        {
            let dependent = changed[i].0.to_bits();
            let owner = changed[i].1.owner().to_bits();
            self.owners.insert(dependent, owner);
            proof {
                assert(changed@.take(i + 1).drop_last() == changed@.take(i as int));
            }
            i += 1;
        }
        proof {
            assert(changed@.take(changed@.len() as int) == changed@);
        }
    }

    /// Erases the entry of every entity whose relation component was removed
    /// this tick. To be run when all who need the stale owner have had it.
    pub fn cleanup(&mut self, removed: &Vec<Entity>)
        ensures
            final(self)@ == old(self)@.remove_keys(ids(removed@)),
    {
        let mut i: usize = 0;
        while i < removed.len()
            invariant
                i <= removed.len(),
                self@ == old(self)@.remove_keys(ids(removed@.take(i as int))),
            decreases removed.len() - i,
        {
            let dependent = removed[i].to_bits();
            self.owners.remove(&dependent);
            proof {
                lemma_ids_push(removed@.take(i + 1));
            }
            i += 1;
        }
        proof {
            assert(removed@.take(removed@.len() as int) == removed@);
        }
    }

    /// The owner that the cache holds for `dependent`.
    pub fn get(&self, dependent: Entity) -> (r: Option<Entity>)
        ensures
            self@.contains_key(dependent@) ==> r.is_some() && r.unwrap()@ == self@[dependent@],
            !self@.contains_key(dependent@) ==> r.is_none(),
    {
        let key = dependent.to_bits();
        match self.owners.get(&key) {
            Some(owner) => Some(Entity::from_bits(*owner)),
            None => None,
        }
    }

    /// The owner of `dependent`: what its relation component says where it
    /// is still there, else what the cache holds.
    pub fn resolve(&self, dependent: Entity, authoritative: Option<&R>) -> (r: Option<Entity>)
        ensures
            r.is_some() <==> authoritative.is_some() || self@.contains_key(dependent@),
            authoritative.is_some() ==> r == Some(authoritative.unwrap().spec_owner()),
            authoritative.is_none() && self@.contains_key(dependent@) ==> r.unwrap()@
                == self@[dependent@],
    {
        match authoritative {
            Some(relation) => Some(relation.owner()),
            None => self.get(dependent),
        }
    }
}

/// The identifiers of a sequence are those of all but its last entity, and
/// that of the last.
pub proof fn lemma_ids_push(entities: Seq<Entity>)
    requires
        entities.len() > 0,
    ensures
        ids(entities) == ids(entities.drop_last()).insert(entities.last()@),
{
    let init = entities.drop_last();
    assert forall|id: u64| ids(entities).contains(id) <==> ids(init).contains(id) || id
        == entities.last()@ by {
        if ids(entities).contains(id) {
            let j = choose|j: int| 0 <= j < entities.len() && entities[j]@ == id;
            if j < init.len() {
                assert(init[j]@ == id);
            }
        }
    }
}

/// Entering relations leaves the entry of every dependent that is not among
/// them as it was.
pub proof fn lemma_entered_keeps<R: Relation>(
    map: Map<u64, u64>,
    changed: Seq<(Entity, R)>,
    dependent: u64,
)
    requires
        forall|i: int| 0 <= i < changed.len() ==> (#[trigger] changed[i]).0@ != dependent,
    ensures
        entered(map, changed).contains_key(dependent) == map.contains_key(dependent),
        map.contains_key(dependent) ==> entered(map, changed)[dependent] == map[dependent],
    decreases changed.len(),
{
    if changed.len() > 0 {
        lemma_entered_keeps(map, changed.drop_last(), dependent);
    }
}

/// After relations have been entered, the cache holds for each dependent the
/// owner that the last relation entered for it names.
pub proof fn lemma_entered_last<R: Relation>(map: Map<u64, u64>, changed: Seq<(Entity, R)>, i: int)
    requires
        0 <= i < changed.len(),
        forall|j: int| i < j < changed.len() ==> (#[trigger] changed[j]).0@ != changed[i].0@,
    ensures
        entered(map, changed).contains_key(changed[i].0@),
        entered(map, changed)[changed[i].0@] == changed[i].1.spec_owner()@,
    decreases changed.len(),
{
    if i < changed.len() - 1 {
        lemma_entered_last(map, changed.drop_last(), i);
    }
}

/// From the tick in which a dependent's relation is entered until the
/// cleanup that is told of its removal, the cache resolves the dependent to
/// its owner: neither the entering of other relations nor the cleanup of
/// other entities touches the entry, whether or not the relation component
/// is still there.
pub proof fn lemma_owner_survives<R: Relation>(
    map: Map<u64, u64>,
    changed: Seq<(Entity, R)>,
    removed: Seq<Entity>,
    dependent: u64,
)
    requires
        map.contains_key(dependent),
        forall|i: int| 0 <= i < changed.len() ==> (#[trigger] changed[i]).0@ != dependent,
        forall|i: int| 0 <= i < removed.len() ==> (#[trigger] removed[i])@ != dependent,
    ensures
        entered(map, changed).remove_keys(ids(removed)).contains_key(dependent),
        entered(map, changed).remove_keys(ids(removed))[dependent] == map[dependent],
{
    lemma_entered_keeps(map, changed, dependent);
}

} // verus!
