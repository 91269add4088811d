//! A small set of entity identifiers, kept by the `smolset` crate. What the
//! crate's set does is taken on trust here, each method as its source shows
//! it.

use smolset::SmolSet;
use vstd::prelude::*;

verus! {

/// A set of entity identifiers, held in a `smolset::SmolSet` that keeps up
/// to four of them inline.
#[verifier::external_body]
#[derive(Debug)]
pub struct EntitySet {
    set: SmolSet<[u64; 4]>,
}

/// The identifiers that the set holds.
pub uninterp spec fn smolset_contents(set: EntitySet) -> Set<u64>;

/// `SmolSet::new`: a set that holds nothing.
#[verifier::external_body]
pub(crate) fn smolset_new() -> (set: EntitySet)
    ensures
        smolset_contents(set) == Set::<u64>::empty(),
{
    EntitySet { set: SmolSet::new() }
}

/// `SmolSet::insert`: the item is in the set afterwards, and nothing else
/// has come or gone. The result says whether the item was new.
#[verifier::external_body]
pub(crate) fn smolset_insert(set: &mut EntitySet, item: u64) -> (fresh: bool)
    ensures
        smolset_contents(*final(set)) == smolset_contents(*old(set)).insert(item),
        fresh == !smolset_contents(*old(set)).contains(item),
{
    set.set.insert(item)
}

/// `SmolSet::remove`: the item is not in the set afterwards, and nothing
/// else has come or gone. The result says whether the item was there.
#[verifier::external_body]
pub(crate) fn smolset_remove(set: &mut EntitySet, item: u64) -> (found: bool)
    ensures
        smolset_contents(*final(set)) == smolset_contents(*old(set)).remove(item),
        found == smolset_contents(*old(set)).contains(item),
{
    set.set.remove(&item)
}

/// `SmolSet::len`: the number of items in the set.
#[verifier::external_body]
pub(crate) fn smolset_len(set: &EntitySet) -> (n: usize)
    requires
        smolset_contents(*set).finite(),
    ensures
        n == smolset_contents(*set).len(),
{
    set.set.len()
}

} // verus!
