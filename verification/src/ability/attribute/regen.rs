//! Regeneration: a layer whose amount is added to an attribute on a cadence
//! of its own.

use super::attribute::{layer_value, Attribute, Max};
use crate::amount::{fits, Amount, Overflow};
use std::marker::PhantomData;
use vstd::prelude::*;

verus! {

/// Layer tag: what kind `A` regains on each regeneration tick.
pub struct Regen<A>(PhantomData<A>);

impl<A> Default for Regen<A> {
    fn default() -> Self {
        Regen(PhantomData)
    }
}

impl<A> Clone for Regen<A> {
    fn clone(&self) -> Self {
        Regen(PhantomData)
    }
}

impl<A> Copy for Regen<A> {

}

/// The amount after regeneration: `cur + regen`, but no more than `max`
/// where there is one.
pub open spec fn regenerated(cur: int, regen: int, max: Option<int>) -> int {
    match max {
        Some(x) => if cur + regen > x { x } else { cur + regen },
        None => cur + regen,
    }
}

/// The bit pattern of a bound that may be absent.
spec fn bound(max: Option<Amount>) -> Option<int> {
    match max {
        Some(x) => Some(x@),
        None => None,
    }
}

/// The regenerated amount of `cur`, or `None` where it does not fit. A sum
/// that overflows upwards is no overflow under a max layer, which cuts it
/// down.
fn regenerate(cur: Amount, regen: Amount, max: Option<Amount>) -> (r: Option<Amount>)
    ensures
        fits(regenerated(cur@, regen@, bound(max))) ==> r.is_some() && r.unwrap()@
            == regenerated(cur@, regen@, bound(max)),
        !fits(regenerated(cur@, regen@, bound(max))) ==> r.is_none(),
{
    match (cur.checked_add(regen), max) {
        (Some(sum), Some(max)) => {
            if sum.to_bits() > max.to_bits() {
                Some(max)
            } else {
                Some(sum)
            }
        },
        (Some(sum), None) => Some(sum),
        (None, Some(max)) => {
            if regen.to_bits() > 0 {
                Some(max)
            } else {
                None
            }
        },
        (None, None) => None,
    }
}

/// Adds the regen layer `rate` to `attribute`, cut down to the max layer where there
/// is one. The amount is written only where it differs from the amount that
/// is stored, and the result says whether it was. Where the new amount does
/// not fit, nothing is written.
pub fn regen<A>(
    attribute: &mut Attribute<A>,
    rate: &Attribute<Regen<A>>,
    max: Option<&Attribute<Max<A>>>,
) -> (r: Result<bool, Overflow>)
    ensures
        final(attribute).inner() == old(attribute).inner(),
        fits(regenerated(old(attribute).value(), rate.value(), layer_value(max))) ==> {
            &&& final(attribute).value() == regenerated(
                old(attribute).value(),
                rate.value(),
                layer_value(max),
            )
            &&& r == Ok::<bool, Overflow>(final(attribute).value() != old(attribute).value())
        },
        !fits(regenerated(old(attribute).value(), rate.value(), layer_value(max))) ==> {
            &&& r.is_err()
            &&& final(attribute).value() == old(attribute).value()
        },
{
    let max = match max {
        Some(max) => Some(*max.amount()),
        None => None,
    };
    match regenerate(*attribute.amount(), *rate.amount(), max) {
        Some(result) => {
            if attribute.amount().to_bits() != result.to_bits() {
                attribute.set_amount(result);
                Ok(true)
            } else {
                Ok(false)
            }
        },
        None => Err(Overflow),
    }
}

/// As [`regen`], but an attribute whose amount is zero or below is left
/// alone: regeneration is off for it.
pub fn regen_unless_zero<A>(
    attribute: &mut Attribute<A>,
    rate: &Attribute<Regen<A>>,
    max: Option<&Attribute<Max<A>>>,
) -> (r: Result<bool, Overflow>)
    ensures
        final(attribute).inner() == old(attribute).inner(),
        old(attribute).value() <= 0 ==> {
            &&& r == Ok::<bool, Overflow>(false)
            &&& final(attribute).value() == old(attribute).value()
        },
        old(attribute).value() > 0 && fits(
            regenerated(old(attribute).value(), rate.value(), layer_value(max)),
        ) ==> {
            &&& final(attribute).value() == regenerated(
                old(attribute).value(),
                rate.value(),
                layer_value(max),
            )
            &&& r == Ok::<bool, Overflow>(final(attribute).value() != old(attribute).value())
        },
        old(attribute).value() > 0 && !fits(
            regenerated(old(attribute).value(), rate.value(), layer_value(max)),
        ) ==> {
            &&& r.is_err()
            &&& final(attribute).value() == old(attribute).value()
        },
        old(attribute).value() > 0 && max is Some ==> r.is_ok(),
{
    if attribute.amount().to_bits() <= 0 {
        return Ok(false);
    }
    regen(attribute, rate, max)
}

} // verus!
