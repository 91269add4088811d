//! Stuns that stack by count: an owner is stunned while the number of stuns
//! on it is above zero.

use crate::effect::effect::{ComponentCommand, EffectTarget};
use crate::effect::relation::RelationCache;
use crate::effect::stack::{EffectStack, Stun, Stunned};
use crate::effect::upkeep::{
    apply_all, apply_stack, marks, modified_stacks, remove_all, remove_stack, settled, Stacks,
};
use crate::entity::Entity;
use vstd::prelude::*;

verus! {

/// The number of stuns on an owner.
#[derive(Debug, Clone, Copy, Default)]
pub struct StunStacks(pub u16);

impl EffectStack for StunStacks {
    type EffectComponent = Stun;

    type TargetEffectComponent = Stunned;

    type Model = u16;

    open spec fn inv(&self) -> bool {
        true
    }

    open spec fn model(&self) -> u16 {
        self.0
    }

    /// One more, unless the count is at its limit.
    open spec fn applied(model: u16, comp: Stun, entity: Entity) -> u16 {
        if model < u16::MAX {
            (model + 1) as u16
        } else {
            model
        }
    }

    /// One less, unless the count is at zero.
    open spec fn removed(model: u16, comp: Option<Stun>, entity: Entity) -> u16 {
        if model > 0 {
            (model - 1) as u16
        } else {
            model
        }
    }

    open spec fn model_alive(model: u16) -> bool {
        model > 0
    }

    open spec fn installs(model: u16, target: Stunned) -> bool {
        target == Stunned
    }

    fn apply(&mut self, _comp: &Stun, _entity: Entity) {
        self.0 = self.0.saturating_add(1);
    }

    fn remove(&mut self, _comp: Option<&Stun>, _entity: Entity) {
        self.0 = self.0.saturating_sub(1);
    }

    fn alive(&self) -> (b: bool) {
        self.0 > 0
    }

    fn target_effect(&self) -> (target: Stunned) {
        Stunned
    }
}

/// Counts one stun more on the target of every stun that was first seen this
/// tick.
pub fn apply_stun_stack(
    stacks: &mut Stacks<StunStacks>,
    added_stuns: &Vec<(Stun, EffectTarget, Entity)>,
)
    requires
        old(stacks).wf(),
    ensures
        final(stacks).wf(),
        final(stacks)@ == apply_all::<StunStacks>(old(stacks)@, added_stuns@),
{
    apply_stack(stacks, added_stuns)
}

/// Counts one stun less on the owner of every stun that was removed this
/// tick. The count does not go below zero.
pub fn remove_stun_stack(
    stacks: &mut Stacks<StunStacks>,
    target: &RelationCache<EffectTarget>,
    removed_stuns: &Vec<(Option<Stun>, Option<EffectTarget>, Entity)>,
)
    requires
        old(stacks).wf(),
    ensures
        final(stacks).wf(),
        final(stacks)@ == remove_all::<StunStacks>(old(stacks)@, target@, removed_stuns@),
{
    remove_stack(stacks, target, removed_stuns)
}

/// Queues, for every owner whose count changed, the removal of [`Stunned`]
/// where the count is zero and its insertion where it is not.
pub fn modified_stun_stacks(
    commands: &mut Vec<ComponentCommand<Stunned>>,
    stacks: &mut Stacks<StunStacks>,
)
    requires
        old(stacks).wf(),
    ensures
        final(stacks).wf(),
        final(stacks)@ == settled::<StunStacks>(old(stacks)@),
        forall|i: int|
            0 <= i < final(stacks)@.len() ==> {
                &&& !(#[trigger] final(stacks)@[i]).changed
                &&& final(stacks)@[i].marked == (final(stacks)@[i].model > 0)
            },
        final(commands)@.len() >= old(commands)@.len(),
        final(commands)@.take(old(commands)@.len() as int) == old(commands)@,
        marks::<StunStacks>(old(stacks)@, final(commands)@.skip(old(commands)@.len() as int)),
{
    modified_stacks(commands, stacks)
}

} // verus!
