//! The upkeep of effect stacks: a table with one stack for each owner, and
//! the steps that a tick takes to keep the stacks, and the markers on their
//! owners, in line with the effect entities that there are.

use super::effect::{ComponentCommand, EffectTarget};
use super::relation::{entered, ids, RelationCache};
use super::stack::{gathered, lemma_gathered, lemma_released, released, EffectStack, ReduceStack};
use crate::entity::Entity;
use crate::schedule::Phase;
use vstd::prelude::*;

verus! {

/// One owner in a table of stacks, in contracts.
pub struct Entry<M> {
    /// The owner's identifier.
    pub owner: u64,
    /// The owner's stack.
    pub model: M,
    /// Whether the stack was touched since the marker was last brought in
    /// line with it.
    pub changed: bool,
    /// Whether the owner carries the marker, as far as this table has asked
    /// for it.
    pub marked: bool,
}

struct Row<S> {
    owner: Entity,
    stack: S,
    changed: bool,
    marked: bool,
}

/// The stacks of one effect kind, one for each owner.
pub struct Stacks<S> {
    rows: Vec<Row<S>>,
}

impl<S: EffectStack> View for Stacks<S> {
    type V = Seq<Entry<S::Model>>;

    /// The owners in the order in which they came.
    closed spec fn view(&self) -> Seq<Entry<S::Model>> {
        Seq::new(
            self.rows@.len(),
            |i: int|
                Entry {
                    owner: self.rows@[i].owner@,
                    model: self.rows@[i].stack.model(),
                    changed: self.rows@[i].changed,
                    marked: self.rows@[i].marked,
                },
        )
    }
}

/// No owner has two rows.
pub open spec fn distinct_owners<M>(rows: Seq<Entry<M>>) -> bool {
    forall|i: int, j: int| 0 <= i < j < rows.len() ==> rows[i].owner != rows[j].owner
}

/// Every owner whose stack was not touched carries the marker if and only if
/// its stack is alive.
pub open spec fn markers_in_line<S: EffectStack>(rows: Seq<Entry<S::Model>>) -> bool {
    forall|i: int|
        0 <= i < rows.len() && !rows[i].changed ==> rows[i].marked == S::model_alive(
            #[trigger] rows[i].model,
        )
}

/// Whether `owner` has a row.
pub open spec fn has_owner<M>(rows: Seq<Entry<M>>, owner: u64) -> bool {
    exists|i: int| 0 <= i < rows.len() && #[trigger] rows[i].owner == owner
}

/// The rows after the contribution `c` has been merged into the stack of its
/// target. A contribution whose target has no row changes nothing.
pub open spec fn apply_one<S: EffectStack>(
    rows: Seq<Entry<S::Model>>,
    c: (S::EffectComponent, EffectTarget, Entity),
) -> Seq<Entry<S::Model>> {
    Seq::new(
        rows.len(),
        |i: int|
            if rows[i].owner == c.1.0@ {
                Entry {
                    owner: rows[i].owner,
                    model: S::applied(rows[i].model, c.0, c.2),
                    changed: true,
                    marked: rows[i].marked,
                }
            } else {
                rows[i]
            },
    )
}

/// The rows after the contributions `added` have been merged in, one by one.
pub open spec fn apply_all<S: EffectStack>(
    rows: Seq<Entry<S::Model>>,
    added: Seq<(S::EffectComponent, EffectTarget, Entity)>,
) -> Seq<Entry<S::Model>>
    decreases added.len(),
{
    if added.len() == 0 {
        rows
    } else {
        apply_one::<S>(apply_all::<S>(rows, added.drop_last()), added.last())
    }
}

/// The owner of an effect entity at the time of its removal: the target that
/// the entity still names, else the owner that the cache holds for it.
pub open spec fn owner_of(cache: Map<u64, u64>, target: Option<EffectTarget>, entity: Entity)
    -> Option<u64> {
    match target {
        Some(t) => Some(t.0@),
        None => if cache.contains_key(entity@) {
            Some(cache[entity@])
        } else {
            None
        },
    }
}

/// The rows after the contribution of the removed effect `r` has been undone
/// on the stack of its owner. A removal whose owner is unknown or has no row
/// changes nothing.
pub open spec fn remove_one<S: EffectStack>(
    rows: Seq<Entry<S::Model>>,
    cache: Map<u64, u64>,
    r: (Option<S::EffectComponent>, Option<EffectTarget>, Entity),
) -> Seq<Entry<S::Model>> {
    Seq::new(
        rows.len(),
        |i: int|
            if owner_of(cache, r.1, r.2) == Some(rows[i].owner) {
                Entry {
                    owner: rows[i].owner,
                    model: S::removed(rows[i].model, r.0, r.2),
                    changed: true,
                    marked: rows[i].marked,
                }
            } else {
                rows[i]
            },
    )
}

/// The rows after the contributions of the removed effects `removing` have
/// been undone, one by one.
pub open spec fn remove_all<S: EffectStack>(
    rows: Seq<Entry<S::Model>>,
    cache: Map<u64, u64>,
    removing: Seq<(Option<S::EffectComponent>, Option<EffectTarget>, Entity)>,
) -> Seq<Entry<S::Model>>
    decreases removing.len(),
{
    if removing.len() == 0 {
        rows
    } else {
        remove_one::<S>(remove_all::<S>(rows, cache, removing.drop_last()), cache, removing.last())
    }
}

/// The rows after every marker has been brought in line with its stack.
pub open spec fn settled<S: EffectStack>(rows: Seq<Entry<S::Model>>) -> Seq<Entry<S::Model>> {
    Seq::new(
        rows.len(),
        |i: int|
            if rows[i].changed {
                Entry {
                    owner: rows[i].owner,
                    model: rows[i].model,
                    changed: false,
                    marked: S::model_alive(rows[i].model),
                }
            } else {
                rows[i]
            },
    )
}

/// Whether `command` brings the marker of the owner `row` in line with its
/// stack: it puts on what the stack installs where the stack is alive, and
/// takes the marker off where it is not.
pub open spec fn marks_row<S: EffectStack>(
    row: Entry<S::Model>,
    command: ComponentCommand<S::TargetEffectComponent>,
) -> bool {
    &&& command.entity()@ == row.owner
    &&& match command {
        ComponentCommand::Insert(_, target) => S::model_alive(row.model) && S::installs(
            row.model,
            target,
        ),
        ComponentCommand::Remove(_) => !S::model_alive(row.model),
    }
}

/// Whether `commands` holds one command for each touched row of `rows`, in
/// the order of the rows, and each brings that row's marker in line.
pub open spec fn marks<S: EffectStack>(
    rows: Seq<Entry<S::Model>>,
    commands: Seq<ComponentCommand<S::TargetEffectComponent>>,
) -> bool
    decreases rows.len(),
{
    if rows.len() == 0 {
        commands.len() == 0
    } else if rows.last().changed {
        &&& commands.len() > 0
        &&& marks::<S>(rows.drop_last(), commands.drop_last())
        &&& marks_row::<S>(rows.last(), commands.last())
    } else {
        marks::<S>(rows.drop_last(), commands)
    }
}

impl<S: EffectStack> Stacks<S> {
    /// Whether every stack in the table is well formed.
    pub closed spec fn stacks_inv(&self) -> bool {
        forall|i: int| 0 <= i < self.rows@.len() ==> (#[trigger] self.rows@[i]).stack.inv()
    }

    /// Whether the table is well formed: its stacks are, no owner has two
    /// rows, and every marker is in line with its stack unless the stack was
    /// touched since.
    pub open spec fn wf(&self) -> bool {
        &&& self.stacks_inv()
        &&& distinct_owners(self@)
        &&& markers_in_line::<S>(self@)
    }

    /// A table with no owner.
    pub fn new() -> (r: Self)
        ensures
            r.wf(),
            r@.len() == 0,
    {
        Stacks { rows: Vec::new() }
    }

    /// The number of owners.
    pub fn len(&self) -> (n: usize)
        ensures
            n == self@.len(),
    {
        self.rows.len()
    }

    fn position(&self, owner: Entity) -> (r: Option<usize>)
        ensures
            match r {
                Some(k) => k < self@.len() && self@[k as int].owner == owner@,
                None => !has_owner(self@, owner@),
            },
    {
        let mut k: usize = 0;
        while k < self.rows.len()
            invariant
                k <= self.rows@.len(),
                self@.len() == self.rows@.len(),
                forall|j: int| 0 <= j < k ==> self@[j].owner != owner@,
            decreases self.rows@.len() - k,
        {
            if self.rows[k].owner.to_bits() == owner.to_bits() {
                return Some(k);
            }
            k += 1;
        }
        None
    }

    /// Gives `owner` the stack `stack`, in place of the stack that it had.
    /// The marker of a new owner is taken to be absent. The result says
    /// whether the owner is new.
    pub fn insert(&mut self, owner: Entity, stack: S) -> (fresh: bool)
        requires
            old(self).wf(),
            stack.inv(),
        ensures
            final(self).wf(),
            fresh == !has_owner(old(self)@, owner@),
            fresh ==> final(self)@ == old(self)@.push(
                Entry { owner: owner@, model: stack.model(), changed: true, marked: false },
            ),
            !fresh ==> final(self)@ == Seq::new(
                old(self)@.len(),
                |i: int|
                    if old(self)@[i].owner == owner@ {
                        Entry {
                            owner: owner@,
                            model: stack.model(),
                            changed: true,
                            marked: old(self)@[i].marked,
                        }
                    } else {
                        old(self)@[i]
                    },
            ),
    {
        match self.position(owner) {
            Some(k) => {
                let row = &mut self.rows[k];
                row.changed = true;
                row.stack = stack;
                proof {
                    assert forall|i: int| 0 <= i < self@.len() implies (#[trigger] self@[i]).owner
                        == old(self)@[i].owner by {}
                }
                false
            },
            None => {
                self.rows.push(Row { owner, stack, changed: true, marked: false });
                proof {
                    assert forall|i: int| 0 <= i < old(self)@.len() implies #[trigger] self@[i]
                        == old(self)@[i] by {}
                }
                true
            },
        }
    }

    /// Takes `owner` out of the table and hands back its stack.
    pub fn remove(&mut self, owner: Entity) -> (r: Option<S>)
        requires
            old(self).wf(),
        ensures
            final(self).wf(),
            r.is_some() == has_owner(old(self)@, owner@),
            match r {
                Some(stack) => exists|k: int|
                    {
                        &&& 0 <= k < old(self)@.len()
                        &&& #[trigger] old(self)@[k].owner == owner@
                        &&& old(self)@[k].model == stack.model()
                        &&& stack.inv()
                        &&& final(self)@ == old(self)@.remove(k)
                    },
                None => final(self)@ == old(self)@,
            },
    {
        match self.position(owner) {
            Some(k) => {
                let row = self.rows.remove(k);
                proof {
                    assert(final(self)@ =~= old(self)@.remove(k as int));
                }
                Some(row.stack)
            },
            None => None,
        }
    }

    /// The stack of `owner`.
    pub fn get(&self, owner: Entity) -> (r: Option<&S>)
        requires
            self.wf(),
        ensures
            r.is_some() == has_owner(self@, owner@),
            match r {
                Some(stack) => stack.inv() && exists|k: int|
                    0 <= k < self@.len() && #[trigger] self@[k].owner == owner@ && self@[k].model
                        == stack.model(),
                None => true,
            },
    {
        match self.position(owner) {
            Some(k) => {
                Some(&self.rows[k].stack)
            },
            None => None,
        }
    }

    /// Whether `owner` carries the marker, as far as this table has asked
    /// for it.
    pub fn is_marked(&self, owner: Entity) -> (b: bool)
        requires
            self.wf(),
        ensures
            b == exists|k: int|
                0 <= k < self@.len() && #[trigger] self@[k].owner == owner@ && self@[k].marked,
    {
        match self.position(owner) {
            Some(k) => {
                self.rows[k].marked
            },
            None => false,
        }
    }
}

impl<S: EffectStack> Stacks<S> {
    /// Merges one contribution into the stack of its target.
    fn apply_one(&mut self, c: &(S::EffectComponent, EffectTarget, Entity))
        requires
            old(self).wf(),
        ensures
            final(self).wf(),
            final(self)@ == apply_one::<S>(old(self)@, *c),
    {
        match self.position(c.1.entity()) {
            Some(k) => {
                let row = &mut self.rows[k];
                row.changed = true;
                row.stack.apply(&c.0, c.2);
                proof {
                    self.lemma_touched(*old(self), k as int);
                }
            },
            None => {},
        }
    }

    /// Undoes one contribution on the stack of its owner.
    fn remove_one(
        &mut self,
        cache: &RelationCache<EffectTarget>,
        r: &(Option<S::EffectComponent>, Option<EffectTarget>, Entity),
    )
        requires
            old(self).wf(),
        ensures
            final(self).wf(),
            final(self)@ == remove_one::<S>(old(self)@, cache@, *r),
    {
        let owner = match &r.1 {
            Some(target) => cache.resolve(r.2, Some(target)),
            None => cache.resolve(r.2, None),
        };
        let owner = match owner {
            Some(owner) => owner,
            None => {
                return;
            },
        };
        match self.position(owner) {
            Some(k) => {
                let comp = match &r.0 {
                    Some(c) => Some(c),
                    None => None,
                };
                let row = &mut self.rows[k];
                row.changed = true;
                row.stack.remove(comp, r.2);
                proof {
                    self.lemma_touched(*old(self), k as int);
                }
            },
            None => {},
        }
    }

    /// A table stays well formed when one of its stacks is touched and the
    /// row is flagged as changed.
    proof fn lemma_touched(self, before: Self, k: int)
        requires
            before.wf(),
            0 <= k < before.rows@.len(),
            self.rows@.len() == before.rows@.len(),
            forall|i: int|
                0 <= i < self.rows@.len() && i != k ==> self.rows@[i] == before.rows@[i],
            self.rows@[k].owner == before.rows@[k].owner,
            self.rows@[k].marked == before.rows@[k].marked,
            self.rows@[k].changed,
            self.rows@[k].stack.inv(),
        ensures
            self.wf(),
            self@.len() == before@.len(),
            forall|i: int| 0 <= i < self@.len() && i != k ==> self@[i] == before@[i],
            forall|i: int| 0 <= i < self@.len() && i != k ==> self@[i].owner != self@[k].owner,
    {
        assert forall|i: int| 0 <= i < self@.len() implies (#[trigger] self@[i]).owner
            == before@[i].owner by {}
    }
}

/// Merges the contribution of every effect entity whose effect component was
/// first seen this tick into the stack of the entity that it targets. A
/// target without a stack is passed over.
pub fn apply_stack<S: EffectStack>(
    stacks: &mut Stacks<S>,
    added: &Vec<(S::EffectComponent, EffectTarget, Entity)>,
)
    requires
        old(stacks).wf(),
    ensures
        final(stacks).wf(),
        final(stacks)@ == apply_all::<S>(old(stacks)@, added@),
{
    let mut i: usize = 0;
    while i < added.len()
        invariant
            i <= added.len(),
            stacks.wf(),
            stacks@ == apply_all::<S>(old(stacks)@, added@.take(i as int)),
        decreases added.len() - i,
    {
        stacks.apply_one(&added[i]);
        proof {
            assert(added@.take(i + 1).drop_last() == added@.take(i as int));
        }
        i += 1;
    }
    proof {
        assert(added@.take(added@.len() as int) == added@);
    }
}

/// Undoes the contribution of every effect entity whose effect component was
/// removed, or which was destroyed, this tick. The owner is the target that
/// the entity still names, else the one that `cache` holds for it; a removal
/// whose owner is unknown or has no stack is dropped.
pub fn remove_stack<S: EffectStack>(
    stacks: &mut Stacks<S>,
    cache: &RelationCache<EffectTarget>,
    removing: &Vec<(Option<S::EffectComponent>, Option<EffectTarget>, Entity)>,
)
    requires
        old(stacks).wf(),
    ensures
        final(stacks).wf(),
        final(stacks)@ == remove_all::<S>(old(stacks)@, cache@, removing@),
{
    let mut i: usize = 0;
    while i < removing.len()
        invariant
            i <= removing.len(),
            stacks.wf(),
            stacks@ == remove_all::<S>(old(stacks)@, cache@, removing@.take(i as int)),
        decreases removing.len() - i,
    {
        stacks.remove_one(cache, &removing[i]);
        proof {
            assert(removing@.take(i + 1).drop_last() == removing@.take(i as int));
        }
        i += 1;
    }
    proof {
        assert(removing@.take(removing@.len() as int) == removing@);
    }
}

/// Brings the marker of every owner whose stack was touched in line with the
/// stack: queues the insertion of what the stack installs where the stack is
/// alive, and the removal of the marker where it is not. Afterwards no stack
/// counts as touched, and every owner is marked if and only if its stack is
/// alive.
pub fn modified_stacks<S: EffectStack>(
    commands: &mut Vec<ComponentCommand<S::TargetEffectComponent>>,
    stacks: &mut Stacks<S>,
)
    requires
        old(stacks).wf(),
    ensures
        final(stacks).wf(),
        final(stacks)@ == settled::<S>(old(stacks)@),
        forall|i: int|
            0 <= i < final(stacks)@.len() ==> {
                &&& !(#[trigger] final(stacks)@[i]).changed
                &&& final(stacks)@[i].marked == S::model_alive(final(stacks)@[i].model)
            },
        final(commands)@.len() >= old(commands)@.len(),
        final(commands)@.take(old(commands)@.len() as int) == old(commands)@,
        marks::<S>(old(stacks)@, final(commands)@.skip(old(commands)@.len() as int)),
{
    let ghost before = commands@;
    let mut i: usize = 0;
    while i < stacks.rows.len()
        invariant
            i <= stacks.rows@.len(),
            old(stacks).wf(),
            stacks.stacks_inv(),
            stacks@.len() == old(stacks)@.len(),
            stacks.rows@.len() == stacks@.len(),
            forall|j: int| 0 <= j < i ==> stacks@[j] == settled::<S>(old(stacks)@)[j],
            forall|j: int| i <= j < stacks@.len() ==> stacks@[j] == old(stacks)@[j],
            commands@.len() >= before.len(),
            commands@.take(before.len() as int) == before,
            marks::<S>(old(stacks)@.take(i as int), commands@.skip(before.len() as int)),
        decreases stacks.rows@.len() - i,
    {
        let ghost rows = old(stacks)@;
        let ghost queued = commands@.skip(before.len() as int);
        let ghost prev = *stacks;
        proof {
            assert(rows.take(i + 1).drop_last() == rows.take(i as int));
        }
        if stacks.rows[i].changed {
            let alive = stacks.rows[i].stack.alive();
            let owner = stacks.rows[i].owner;
            if alive {
                let target = stacks.rows[i].stack.target_effect();
                commands.push(ComponentCommand::Insert(owner, target));
            } else {
                commands.push(ComponentCommand::Remove(owner));
            }
            let row = &mut stacks.rows[i];
            row.changed = false;
            row.marked = alive;
            proof {
                let now = commands@.skip(before.len() as int);
                assert(now.drop_last() == queued);
                assert forall|j: int| 0 <= j < i implies stacks@[j] == settled::<S>(rows)[j] by {
                    assert(stacks@[j] == prev@[j]);
                }
            }
        }
        i += 1;
    }
    proof {
        assert(old(stacks)@.take(old(stacks)@.len() as int) == old(stacks)@);
    }
}

/// The effect entities among the contributions `added` that target `owner`,
/// in the order in which they come.
pub open spec fn contributors<E>(added: Seq<(E, EffectTarget, Entity)>, owner: u64) -> Seq<Entity>
    decreases added.len(),
{
    if added.len() == 0 {
        Seq::empty()
    } else if added.last().1.0@ == owner {
        contributors(added.drop_last(), owner).push(added.last().2)
    } else {
        contributors(added.drop_last(), owner)
    }
}

/// The effect entities among the removals `removing` whose owner is `owner`,
/// in the order in which they come.
pub open spec fn leavers<E>(
    cache: Map<u64, u64>,
    removing: Seq<(Option<E>, Option<EffectTarget>, Entity)>,
    owner: u64,
) -> Seq<Entity>
    decreases removing.len(),
{
    if removing.len() == 0 {
        Seq::empty()
    } else if owner_of(cache, removing.last().1, removing.last().2) == Some(owner) {
        leavers(cache, removing.drop_last(), owner).push(removing.last().2)
    } else {
        leavers(cache, removing.drop_last(), owner)
    }
}

/// Applying contributions to a table of stacks of the set kind gathers, in
/// each owner's stack, the effect entities that target that owner. The stack
/// counts as touched if there is one.
pub proof fn lemma_apply_all_gathers<E, T: Default>(
    rows: Seq<Entry<Set<u64>>>,
    added: Seq<(E, EffectTarget, Entity)>,
    k: int,
)
    requires
        0 <= k < rows.len(),
    ensures
        apply_all::<ReduceStack<E, T>>(rows, added).len() == rows.len(),
        apply_all::<ReduceStack<E, T>>(rows, added)[k].owner == rows[k].owner,
        apply_all::<ReduceStack<E, T>>(rows, added)[k].marked == rows[k].marked,
        apply_all::<ReduceStack<E, T>>(rows, added)[k].model == gathered(
            rows[k].model,
            contributors(added, rows[k].owner),
        ),
        apply_all::<ReduceStack<E, T>>(rows, added)[k].changed == (rows[k].changed || contributors(
            added,
            rows[k].owner,
        ).len() > 0),
    decreases added.len(),
{
    if added.len() > 0 {
        lemma_apply_all_gathers::<E, T>(rows, added.drop_last(), k);
        if added.last().1.0@ == rows[k].owner {
            let before = contributors(added.drop_last(), rows[k].owner);
            assert(before.push(added.last().2).drop_last() =~= before);
        }
    }
}

/// Undoing removals on a table of stacks of the set kind releases, from each
/// owner's stack, the effect entities whose owner it is. The stack counts as
/// touched if there is one.
pub proof fn lemma_remove_all_releases<E, T: Default>(
    rows: Seq<Entry<Set<u64>>>,
    cache: Map<u64, u64>,
    removing: Seq<(Option<E>, Option<EffectTarget>, Entity)>,
    k: int,
)
    requires
        0 <= k < rows.len(),
    ensures
        remove_all::<ReduceStack<E, T>>(rows, cache, removing).len() == rows.len(),
        remove_all::<ReduceStack<E, T>>(rows, cache, removing)[k].owner == rows[k].owner,
        remove_all::<ReduceStack<E, T>>(rows, cache, removing)[k].marked == rows[k].marked,
        remove_all::<ReduceStack<E, T>>(rows, cache, removing)[k].model == released(
            rows[k].model,
            leavers(cache, removing, rows[k].owner),
        ),
        remove_all::<ReduceStack<E, T>>(rows, cache, removing)[k].changed == (rows[k].changed
            || leavers(cache, removing, rows[k].owner).len() > 0),
    decreases removing.len(),
{
    if removing.len() > 0 {
        lemma_remove_all_releases::<E, T>(rows, cache, removing.drop_last(), k);
        if owner_of(cache, removing.last().1, removing.last().2) == Some(rows[k].owner) {
            let before = leavers(cache, removing.drop_last(), rows[k].owner);
            assert(before.push(removing.last().2).drop_last() =~= before);
        }
    }
}

/// One tick on a table of stacks of the set kind: each owner's stack holds
/// afterwards what it held before, with the effect entities that came for
/// that owner and without those that went. Where any came or went, the
/// owner is marked afterwards if and only if its stack holds an entity: so
/// an owner whose effects have all gone loses its marker, and one that has
/// an effect left keeps it.
pub proof fn lemma_set_upkeep<E, T: Default>(
    rows: Seq<Entry<Set<u64>>>,
    cache: Map<u64, u64>,
    added: Seq<(E, EffectTarget, Entity)>,
    removing: Seq<(Option<E>, Option<EffectTarget>, Entity)>,
    k: int,
)
    requires
        0 <= k < rows.len(),
    ensures
        ({
            let after = settled::<ReduceStack<E, T>>(
                remove_all::<ReduceStack<E, T>>(
                    apply_all::<ReduceStack<E, T>>(rows, added),
                    cache,
                    removing,
                ),
            );
            let came = contributors(added, rows[k].owner);
            let went = leavers(cache, removing, rows[k].owner);
            let held = rows[k].model.union(ids(came)).difference(ids(went));
            &&& after.len() == rows.len()
            &&& after[k].owner == rows[k].owner
            &&& after[k].model == held
            &&& came.len() > 0 || went.len() > 0 ==> (after[k].marked <==> exists|id: u64|
                held.contains(id))
        }),
{
    let applied = apply_all::<ReduceStack<E, T>>(rows, added);
    lemma_apply_all_gathers::<E, T>(rows, added, k);
    lemma_remove_all_releases::<E, T>(applied, cache, removing, k);
    lemma_gathered(rows[k].model, contributors(added, rows[k].owner));
    lemma_released(applied[k].model, leavers(cache, removing, rows[k].owner));
}

/// The round trip of a stack of the set kind through one tick or many: an
/// owner whose stack was empty, to which effect entities came, and from
/// which all of them went again, has an empty stack and no marker.
pub proof fn lemma_round_trip_unmarks<E, T: Default>(
    rows: Seq<Entry<Set<u64>>>,
    cache: Map<u64, u64>,
    added: Seq<(E, EffectTarget, Entity)>,
    removing: Seq<(Option<E>, Option<EffectTarget>, Entity)>,
    k: int,
)
    requires
        0 <= k < rows.len(),
        rows[k].model == Set::<u64>::empty(),
        contributors(added, rows[k].owner).len() > 0,
        ids(contributors(added, rows[k].owner)).subset_of(
            ids(leavers(cache, removing, rows[k].owner)),
        ),
    ensures
        ({
            let after = settled::<ReduceStack<E, T>>(
                remove_all::<ReduceStack<E, T>>(
                    apply_all::<ReduceStack<E, T>>(rows, added),
                    cache,
                    removing,
                ),
            );
            &&& after[k].model == Set::<u64>::empty()
            &&& !after[k].marked
        }),
{
    lemma_set_upkeep::<E, T>(rows, cache, added, removing, k);
    let came = ids(contributors(added, rows[k].owner));
    let went = ids(leavers(cache, removing, rows[k].owner));
    assert(rows[k].model.union(came).difference(went) =~= Set::<u64>::empty());
}

/// Whether the cache knows the owner of every effect entity that a stack of
/// the set kind holds: the entity's entry names the owner of that stack.
pub open spec fn coherent(rows: Seq<Entry<Set<u64>>>, cache: Map<u64, u64>) -> bool {
    forall|k: int, id: u64|
        0 <= k < rows.len() && #[trigger] rows[k].model.contains(id) ==> cache.contains_key(id)
            && cache[id] == rows[k].owner
}

/// While the cache is coherent with the stacks, the removal of an effect
/// entity of which nothing is left, neither its component nor its target,
/// still reaches the stack that holds it, and no other.
pub proof fn lemma_removal_finds_owner<E, T: Default>(
    rows: Seq<Entry<Set<u64>>>,
    cache: Map<u64, u64>,
    entity: Entity,
    k: int,
)
    requires
        coherent(rows, cache),
        distinct_owners(rows),
        0 <= k < rows.len(),
        rows[k].model.contains(entity@),
    ensures
        ({
            let after = remove_one::<ReduceStack<E, T>>(rows, cache, (None, None, entity));
            &&& after.len() == rows.len()
            &&& after[k].model == rows[k].model.remove(entity@)
            &&& forall|j: int| 0 <= j < rows.len() && j != k ==> after[j] == rows[j]
        }),
{
}

/// Entering a relation keeps the cache coherent, provided that an effect
/// entity that a stack holds is not given another owner than that stack's.
pub proof fn lemma_enter_keeps_coherent(
    rows: Seq<Entry<Set<u64>>>,
    cache: Map<u64, u64>,
    effect: u64,
    owner: u64,
)
    requires
        coherent(rows, cache),
        forall|k: int|
            0 <= k < rows.len() && #[trigger] rows[k].model.contains(effect) ==> rows[k].owner
                == owner,
    ensures
        coherent(rows, cache.insert(effect, owner)),
{
    let entered = cache.insert(effect, owner);
}

/// Applying a contribution keeps the cache coherent, provided that the cache
/// knows the target of the effect entity by then.
pub proof fn lemma_apply_keeps_coherent<E, T: Default>(
    rows: Seq<Entry<Set<u64>>>,
    cache: Map<u64, u64>,
    c: (E, EffectTarget, Entity),
)
    requires
        coherent(rows, cache),
        cache.contains_key(c.2@),
        cache[c.2@] == c.1.0@,
    ensures
        coherent(apply_one::<ReduceStack<E, T>>(rows, c), cache),
{
    let after = apply_one::<ReduceStack<E, T>>(rows, c);
}

/// Undoing a contribution keeps the cache coherent.
pub proof fn lemma_remove_keeps_coherent<E, T: Default>(
    rows: Seq<Entry<Set<u64>>>,
    cache: Map<u64, u64>,
    r: (Option<E>, Option<EffectTarget>, Entity),
)
    requires
        coherent(rows, cache),
    ensures
        coherent(remove_one::<ReduceStack<E, T>>(rows, cache, r), cache),
{
    let after = remove_one::<ReduceStack<E, T>>(rows, cache, r);
}

/// Cleaning up keeps the cache coherent, provided that no stack holds an
/// entity whose entry is erased: which is why the cleanup has to wait for
/// the removal.
pub proof fn lemma_cleanup_keeps_coherent(
    rows: Seq<Entry<Set<u64>>>,
    cache: Map<u64, u64>,
    erased: Set<u64>,
)
    requires
        coherent(rows, cache),
        forall|k: int, id: u64|
            0 <= k < rows.len() && erased.contains(id) ==> !#[trigger] rows[k].model.contains(id),
    ensures
        coherent(rows, cache.remove_keys(erased)),
{
    let cleaned = cache.remove_keys(erased);
}

/// The steps of stack upkeep. A tick runs them in the order in which they
/// stand here.
#[derive(Clone, Copy, Debug, PartialEq, Eq, Structural, Hash)]
pub enum StackLabel {
    /// The relations that changed are entered into the cache.
    Cache,
    /// New contributions are applied.
    ApplyStack,
    /// Contributions that are gone are removed.
    RemoveStack,
    /// The markers are brought in line with the stacks.
    ModifiedStacks,
    /// The cache entries of relations that are gone are erased, and the
    /// entities and components that were marked for it are taken away.
    Cleanup,
}

impl StackLabel {
    /// The place of the step in the tick, in contracts.
    pub open spec fn spec_index(self) -> u8 {
        match self {
            StackLabel::Cache => 0,
            StackLabel::ApplyStack => 1,
            StackLabel::RemoveStack => 2,
            StackLabel::ModifiedStacks => 3,
            StackLabel::Cleanup => 4,
        }
    }

    /// The place of the step in the tick.
    #[verifier::when_used_as_spec(spec_index)]
    pub fn index(self) -> (i: u8)
        ensures
            i == self.index(),
    {
        match self {
            StackLabel::Cache => 0,
            StackLabel::ApplyStack => 1,
            StackLabel::RemoveStack => 2,
            StackLabel::ModifiedStacks => 3,
            StackLabel::Cleanup => 4,
        }
    }

    /// The phase of the tick in which the step runs, in contracts.
    pub open spec fn spec_phase(self) -> Phase {
        match self {
            StackLabel::Cache => Phase::PreUpdate,
            StackLabel::ApplyStack => Phase::Update,
            StackLabel::RemoveStack => Phase::PostUpdate,
            StackLabel::ModifiedStacks => Phase::PostUpdate,
            StackLabel::Cleanup => Phase::Last,
        }
    }

    /// The phase of the tick in which the step runs.
    #[verifier::when_used_as_spec(spec_phase)]
    pub fn phase(self) -> (p: Phase)
        ensures
            p == self.phase(),
    {
        match self {
            StackLabel::Cache => Phase::PreUpdate,
            StackLabel::ApplyStack => Phase::Update,
            StackLabel::RemoveStack => Phase::PostUpdate,
            StackLabel::ModifiedStacks => Phase::PostUpdate,
            StackLabel::Cleanup => Phase::Last,
        }
    }

    /// Whether the step has to be over before `other` starts.
    pub open spec fn before(self, other: StackLabel) -> bool {
        self.index() < other.index()
    }

    /// Whether the step has to be over before `other` starts.
    pub fn runs_before(self, other: StackLabel) -> (b: bool)
        ensures
            b == self.before(other),
    {
        self.index() < other.index()
    }

    /// The steps in the order in which a tick runs them: each has to be over
    /// before the next one starts.
    pub fn schedule() -> (steps: Vec<StackLabel>)
        ensures
            steps@ == seq![
                StackLabel::Cache,
                StackLabel::ApplyStack,
                StackLabel::RemoveStack,
                StackLabel::ModifiedStacks,
                StackLabel::Cleanup,
            ],
            forall|i: int, j: int|
                0 <= i < j < steps@.len() ==> (#[trigger] steps@[i]).before(#[trigger] steps@[j]),
    {
        let mut steps: Vec<StackLabel> = Vec::new();
        steps.push(StackLabel::Cache);
        steps.push(StackLabel::ApplyStack);
        steps.push(StackLabel::RemoveStack);
        steps.push(StackLabel::ModifiedStacks);
        steps.push(StackLabel::Cleanup);
        steps
    }
}

/// The order of the steps is strict and total, and it never runs against the
/// order of the phases. Contributions are applied before any is removed, so
/// that one that comes and goes in the same tick is counted and discounted;
/// they are removed before the markers are set, so that a stack that is
/// still alive is not taken for dead; and the cache is cleaned up only after
/// the removal that reads it.
pub proof fn lemma_step_order(a: StackLabel, b: StackLabel, c: StackLabel)
    ensures
        !a.before(a),
        a.before(b) && b.before(c) ==> a.before(c),
        a == b || a.before(b) || b.before(a),
        a.before(b) ==> a.phase().index() <= b.phase().index(),
        StackLabel::Cache.before(StackLabel::ApplyStack),
        StackLabel::ApplyStack.before(StackLabel::RemoveStack),
        StackLabel::RemoveStack.before(StackLabel::ModifiedStacks),
        StackLabel::RemoveStack.before(StackLabel::Cleanup),
{
}

/// What the host has seen of one effect kind since the last tick.
pub struct Observed<E> {
    /// The effect entities whose target relation was set or changed, each
    /// with the relation.
    pub related: Vec<(Entity, EffectTarget)>,
    /// The effect entities whose effect component was first seen.
    pub added: Vec<(E, EffectTarget, Entity)>,
    /// The effect entities whose effect component was removed, or which were
    /// destroyed, each with what is still known of its component and target.
    pub removing: Vec<(Option<E>, Option<EffectTarget>, Entity)>,
    /// The entities whose target relation was removed, or which were
    /// destroyed.
    pub unrelated: Vec<Entity>,
}

/// One tick of stack upkeep, in the one order that is right: the relations
/// are cached; then contributions are applied; then contributions are
/// removed, which may need the cached owner of an effect that is already
/// gone; then the markers are brought in line; and only then are the cache
/// entries of the relations that are gone erased.
pub fn tick<S: EffectStack>(
    stacks: &mut Stacks<S>,
    cache: &mut RelationCache<EffectTarget>,
    commands: &mut Vec<ComponentCommand<S::TargetEffectComponent>>,
    observed: &Observed<S::EffectComponent>,
)
    requires
        old(stacks).wf(),
    ensures
        final(stacks).wf(),
        final(cache)@ == entered(old(cache)@, observed.related@).remove_keys(
            ids(observed.unrelated@),
        ),
        final(stacks)@ == settled::<S>(
            remove_all::<S>(
                apply_all::<S>(old(stacks)@, observed.added@),
                entered(old(cache)@, observed.related@),
                observed.removing@,
            ),
        ),
        forall|i: int|
            0 <= i < final(stacks)@.len() ==> {
                &&& !(#[trigger] final(stacks)@[i]).changed
                &&& final(stacks)@[i].marked == S::model_alive(final(stacks)@[i].model)
            },
        final(commands)@.len() >= old(commands)@.len(),
        final(commands)@.take(old(commands)@.len() as int) == old(commands)@,
        marks::<S>(
            remove_all::<S>(
                apply_all::<S>(old(stacks)@, observed.added@),
                entered(old(cache)@, observed.related@),
                observed.removing@,
            ),
            final(commands)@.skip(old(commands)@.len() as int),
        ),
{
    cache.cache(&observed.related);
    apply_stack(stacks, &observed.added);
    remove_stack(stacks, cache, &observed.removing);
    modified_stacks(commands, stacks);
    cache.cleanup(&observed.unrelated);
}

} // verus!
