//! Burns that stack by merging: a burn that is applied again does not add to
//! the time that is left, it renews it.

use super::stack::EffectStack;
use crate::amount::Amount;
use crate::entity::Entity;
use vstd::prelude::*;

verus! {

/// Effect component: the entity that this effect targets burns for
/// `duration`.
#[derive(Debug, Clone, Copy)]
pub struct Burn {
    pub duration: Amount,
}

/// Target component: this entity burns for `remaining` more.
#[derive(Debug, Clone, Copy)]
pub struct Burning {
    pub remaining: Amount,
}

/// The time that an owner has left to burn: the longest of the burns that
/// were applied to it.
#[derive(Debug, Clone, Copy)]
pub struct BurnStacks {
    remaining: Amount,
}

impl View for BurnStacks {
    type V = int;

    /// The time left, as a bit pattern.
    closed spec fn view(&self) -> int {
        self.remaining@
    }
}

impl BurnStacks {
    /// A stack with no time left.
    pub fn new() -> (r: Self)
        ensures
            r@ == 0,
    {
        BurnStacks { remaining: Amount::zero() }
    }

    /// The time left.
    pub fn remaining(&self) -> (r: Amount)
        ensures
            r@ == self@,
    {
        self.remaining
    }
}

impl EffectStack for BurnStacks {
    type EffectComponent = Burn;

    type TargetEffectComponent = Burning;

    type Model = int;

    open spec fn inv(&self) -> bool {
        true
    }

    open spec fn model(&self) -> int {
        self@
    }

    /// The longer of the time left and the time that the burn brings.
    open spec fn applied(model: int, comp: Burn, entity: Entity) -> int {
        if comp.duration@ > model {
            comp.duration@
        } else {
            model
        }
    }

    /// The time left is not given back: it runs out by itself.
    open spec fn removed(model: int, comp: Option<Burn>, entity: Entity) -> int {
        model
    }

    open spec fn model_alive(model: int) -> bool {
        model > 0
    }

    open spec fn installs(model: int, target: Burning) -> bool {
        target.remaining@ == model
    }

    fn apply(&mut self, comp: &Burn, _entity: Entity) {
        if comp.duration.to_bits() > self.remaining.to_bits() {
            self.remaining = comp.duration;
        }
    }

    fn remove(&mut self, _comp: Option<&Burn>, _entity: Entity) {
    }

    fn alive(&self) -> (b: bool) {
        self.remaining.to_bits() > 0
    }

    fn target_effect(&self) -> (target: Burning) {
        Burning { remaining: self.remaining }
    }
}

} // verus!
