//! Health as a plain counter, with the record of the damage taken.

use crate::entity::Entity;
use std::collections::VecDeque;
use vstd::prelude::*;

verus! {

/// One hit: who dealt it and how much it took away.
#[derive(Debug, Clone, Copy)]
pub struct Damage {
    /// The entity that dealt the hit.
    pub from: Entity,
    /// The health that the hit takes away.
    pub amount: u32,
}

/// The hits an entity has taken, oldest first. Nothing is ever taken out.
#[derive(Debug, Clone)]
pub struct DamageHistory {
    history: VecDeque<Damage>,
}

impl View for DamageHistory {
    type V = Seq<Damage>;

    /// The hits on record, oldest first.
    closed spec fn view(&self) -> Seq<Damage> {
        self.history@
    }
}

impl DamageHistory {
    /// An empty record.
    pub fn new() -> (r: Self)
        ensures
            r@ == Seq::<Damage>::empty(),
    {
        DamageHistory { history: VecDeque::new() }
    }

    /// The number of hits on record.
    pub fn len(&self) -> (n: usize)
        ensures
            n == self@.len(),
    {
        self.history.len()
    }

    /// The `i`-th hit on record, oldest first.
    pub fn get(&self, i: usize) -> (r: Option<Damage>)
        ensures
            i < self@.len() ==> r == Some(self@[i as int]),
            i >= self@.len() ==> r.is_none(),
    {
        if i < self.history.len() {
            Some(self.history[i])
        } else {
            None
        }
    }

    fn push(&mut self, damage: Damage)
        ensures
            final(self)@ == old(self)@.push(damage),
    {
        self.history.push_back(damage);
    }
}

/// The health an entity has left.
#[derive(Debug, Clone, Default)]
pub struct Health {
    amount: u32,
}

impl View for Health {
    type V = u32;

    /// The health that is left.
    closed spec fn view(&self) -> u32 {
        self.amount
    }
}

impl Health {
    /// Health of the given amount.
    pub fn new(health: u32) -> (r: Self)
        ensures
            r@ == health,
    {
        Self { amount: health }
    }

    /// Takes `damage` off the health, stopping at zero, and puts it on
    /// record.
    pub fn damage(&mut self, history: &mut DamageHistory, damage: Damage)
        ensures
            final(self)@ == if old(self)@ >= damage.amount {
                old(self)@ - damage.amount
            } else {
                0
            },
            final(history)@ == old(history)@.push(damage),
    {
        self.amount = self.amount.saturating_sub(damage.amount);
        history.push(damage);
    }

    /// The health that is left.
    pub fn amount(&self) -> (r: u32)
        ensures
            r == self@,
    {
        self.amount
    }

    /// Sets the health to `amount`.
    pub fn set_amount(&mut self, amount: u32)
        ensures
            final(self)@ == amount,
    {
        self.amount = amount;
    }
}

/// The most health an entity can have.
#[derive(Debug, Clone, Default)]
pub struct MaxHealth(pub u32);

/// The health an entity regains on each regeneration tick.
#[derive(Debug, Clone, Default)]
pub struct HealthRegen(pub u32);

/// The health after regeneration: an entity that is alive and below its
/// maximum regains `regen`, up to the maximum; any other keeps what it has.
pub open spec fn regenerated_health(current: u32, max: u32, regen: u32) -> int {
    if 0 < current < max {
        if current + regen > max { max as int } else { current + regen }
    } else {
        current as int
    }
}

/// One regeneration tick on `health`.
pub fn regen(health: &mut Health, max_health: &MaxHealth, rate: &HealthRegen)
    ensures
        final(health)@ == regenerated_health(old(health)@, max_health.0, rate.0),
{
    let current = health.amount();
    let max = max_health.0;
    let regen = rate.0;
    if current > 0 && current < max {
        let room = max - current;
        if regen >= room {
            health.set_amount(max);
        } else {
            health.set_amount(current + regen);
        }
    }
}

} // verus!
