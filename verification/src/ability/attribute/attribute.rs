//! The attribute store, its modifier layers, and the pipeline that folds the
//! layers into an attribute's current amount.

use crate::amount::{fits, mul_add_bits, Amount, Overflow, ONE_BITS};
use crate::schedule::Phase;
use std::marker::PhantomData;
use vstd::prelude::*;

verus! {

/// The value of one kind of attribute on one entity: an amount and a payload.
/// The kind `A` is a tag that tells stores of the same shape apart.
#[derive(Debug, Clone)]
pub struct Attribute<A> {
    amount: Amount,
    inner: A,
}

impl<A: Default> Attribute<A> {
    /// An attribute with the given amount and the default payload.
    pub fn new(amount: Amount) -> (r: Self)
        ensures
            r.amount() == amount,
            call_ensures(A::default, (), *r.inner()),
    {
        Self { amount: amount, inner: A::default() }
    }
}

impl<A> Attribute<A> {
    /// The payload, in contracts.
    pub closed spec fn spec_inner(&self) -> &A {
        &self.inner
    }

    /// The amount, in contracts.
    pub closed spec fn spec_amount(&self) -> &Amount {
        &self.amount
    }

    /// The amount's bit pattern, in contracts.
    pub open spec fn value(&self) -> int {
        self.amount()@
    }

    /// An attribute with the given amount and payload.
    pub fn with_inner(amount: Amount, inner: A) -> (r: Self)
        ensures
            r.amount() == amount,
            r.inner() == inner,
    {
        Self { amount: amount, inner: inner }
    }

    /// The payload.
    #[verifier::when_used_as_spec(spec_inner)]
    pub fn inner(&self) -> (r: &A)
        ensures
            r == self.inner(),
    {
        &self.inner
    }

    /// The payload, to be changed in place. The amount stays as it is.
    pub fn inner_mut(&mut self) -> (r: &mut A)
        ensures
            *r == *old(self).inner(),
            *final(self).inner() == *final(r),
            final(self).amount() == old(self).amount(),
    {
        &mut self.inner
    }

    /// The amount.
    #[verifier::when_used_as_spec(spec_amount)]
    pub fn amount(&self) -> (r: &Amount)
        ensures
            r == self.amount(),
    {
        &self.amount
    }

    /// Stores `amount`. The payload stays as it is.
    pub fn set_amount(&mut self, amount: Amount)
        ensures
            final(self).amount() == amount,
            final(self).inner() == old(self).inner(),
    {
        self.amount = amount;
    }
}

/// Layer tag: the base amount of kind `A`.
pub struct Base<A>(PhantomData<A>);

/// Layer tag: what is added to kind `A` after multiplication.
pub struct Add<A>(PhantomData<A>);

/// Layer tag: the factor applied to the base of kind `A`.
pub struct Mult<A>(PhantomData<A>);

/// Layer tag: the upper bound of kind `A`.
pub struct Max<A>(PhantomData<A>);

/// Layer tag: the lower bound of kind `A`.
pub struct Min<A>(PhantomData<A>);

/// Layer tag: what is subtracted from kind `A`.
pub struct Sub<A>(PhantomData<A>);

impl<A> Default for Base<A> {
    fn default() -> Self {
        Base(PhantomData)
    }
}

impl<A> Clone for Base<A> {
    fn clone(&self) -> Self {
        Base(PhantomData)
    }
}

impl<A> Copy for Base<A> {

}

impl<A> Default for Add<A> {
    fn default() -> Self {
        Add(PhantomData)
    }
}

impl<A> Clone for Add<A> {
    fn clone(&self) -> Self {
        Add(PhantomData)
    }
}

impl<A> Copy for Add<A> {

}

impl<A> Default for Mult<A> {
    fn default() -> Self {
        Mult(PhantomData)
    }
}

impl<A> Clone for Mult<A> {
    fn clone(&self) -> Self {
        Mult(PhantomData)
    }
}

impl<A> Copy for Mult<A> {

}

impl<A> Default for Max<A> {
    fn default() -> Self {
        Max(PhantomData)
    }
}

impl<A> Clone for Max<A> {
    fn clone(&self) -> Self {
        Max(PhantomData)
    }
}

impl<A> Copy for Max<A> {

}

impl<A> Default for Min<A> {
    fn default() -> Self {
        Min(PhantomData)
    }
}

impl<A> Clone for Min<A> {
    fn clone(&self) -> Self {
        Min(PhantomData)
    }
}

impl<A> Copy for Min<A> {

}

impl<A> Default for Sub<A> {
    fn default() -> Self {
        Sub(PhantomData)
    }
}

impl<A> Clone for Sub<A> {
    fn clone(&self) -> Self {
        Sub(PhantomData)
    }
}

impl<A> Copy for Sub<A> {

}

/// The amount of a layer that may be absent.
pub open spec fn layer_value<K>(layer: Option<&Attribute<K>>) -> Option<int> {
    match layer {
        Some(a) => Some(a.value()),
        None => None,
    }
}

/// `base * mult + add` in bit patterns, where an absent base or addend counts
/// as zero and an absent factor as one.
pub open spec fn modified(base: Option<int>, add: Option<int>, mult: Option<int>) -> int {
    mul_add_bits(
        base.unwrap_or(0),
        mult.unwrap_or(ONE_BITS as int),
        add.unwrap_or(0),
    )
}

/// `v` cut down to `max`, where there is one.
pub open spec fn clamped_max(v: int, max: Option<int>) -> int {
    match max {
        Some(x) => if v > x { x } else { v },
        None => v,
    }
}

/// `v` raised to `min`, where there is one.
pub open spec fn clamped_min(v: int, min: Option<int>) -> int {
    match min {
        Some(n) => if v < n { n } else { v },
        None => v,
    }
}

/// `v` brought into the range from `min` to `max`: cut down to the upper bound
/// first, then raised to the lower one. An absent bound does not bind.
pub open spec fn clamp(v: int, min: Option<int>, max: Option<int>) -> int {
    clamped_min(clamped_max(v, max), min)
}

/// Folds the base, add and mult layers into `current`: the amount becomes
/// `base * mult + add`. It is written only where it differs from the amount
/// that is stored, and the result says whether it was. Where the new amount
/// does not fit, nothing is written.
pub fn basic_modifiers<A>(
    current: &mut Attribute<A>,
    base: Option<&Attribute<Base<A>>>,
    add: Option<&Attribute<Add<A>>>,
    mult: Option<&Attribute<Mult<A>>>,
) -> (r: Result<bool, Overflow>)
    ensures
        final(current).inner() == old(current).inner(),
        fits(modified(layer_value(base), layer_value(add), layer_value(mult))) ==> {
            &&& final(current).value() == modified(
                layer_value(base),
                layer_value(add),
                layer_value(mult),
            )
            &&& r == Ok::<bool, Overflow>(final(current).value() != old(current).value())
        },
        !fits(modified(layer_value(base), layer_value(add), layer_value(mult))) ==> {
            &&& r.is_err()
            &&& final(current).value() == old(current).value()
        },
{
    let base = match base {
        Some(base) => *base.amount(),
        None => Amount::zero(),
    };
    let mult = match mult {
        Some(mult) => *mult.amount(),
        None => Amount::one(),
    };
    let add = match add {
        Some(add) => *add.amount(),
        None => Amount::zero(),
    };
    match base.checked_mul_add(mult, add) {
        Some(result) => {
            if current.amount().to_bits() != result.to_bits() {
                current.set_amount(result);
                Ok(true)
            } else {
                Ok(false)
            }
        },
        None => Err(Overflow),
    }
}

/// Cuts `current` down to `max`. The amount is written only where it was above
/// the bound, and the result says whether it was.
pub fn clamp_max<A>(current: &mut Attribute<A>, max: &Attribute<Max<A>>) -> (written: bool)
    ensures
        final(current).inner() == old(current).inner(),
        final(current).value() == clamped_max(old(current).value(), Some(max.value())),
        written == (old(current).value() > max.value()),
{
    if current.amount().to_bits() > max.amount().to_bits() {
        current.set_amount(*max.amount());
        true
    } else {
        false
    }
}

/// Raises `current` to `min`. The amount is written only where it was below
/// the bound, and the result says whether it was.
pub fn clamp_min<A>(current: &mut Attribute<A>, min: &Attribute<Min<A>>) -> (written: bool)
    ensures
        final(current).inner() == old(current).inner(),
        final(current).value() == clamped_min(old(current).value(), Some(min.value())),
        written == (old(current).value() < min.value()),
{
    if current.amount().to_bits() < min.amount().to_bits() {
        current.set_amount(*min.amount());
        true
    } else {
        false
    }
}

/// Kind tag: health.
#[derive(Debug, Clone, Copy, Default)]
pub struct Health;

/// Kind tag: energy.
#[derive(Debug, Clone, Copy, Default)]
pub struct Energy;

/// Kind tag: attack speed.
#[derive(Debug, Clone, Copy, Default)]
pub struct AttackSpeed;

/// Kind tag: movement speed.
#[derive(Debug, Clone, Copy, Default)]
pub struct MovementSpeed;

/// The stages of the attribute pipeline. For one kind, a tick runs them in
/// the order in which they stand here.
#[derive(Clone, Copy, Debug, PartialEq, Eq, Structural, Hash)]
pub enum AttributeLabel {
    /// The modifiers of the kind's max layer are folded into that layer.
    MaxResult,
    /// The modifiers of the kind are folded into its attribute.
    Result,
    /// The attribute is cut down to the max layer.
    ClampMax,
    /// The attribute is raised to the min layer.
    ClampMin,
}

impl AttributeLabel {
    /// The place of the stage in the pipeline, in contracts.
    pub open spec fn spec_index(self) -> u8 {
        match self {
            AttributeLabel::MaxResult => 0,
            AttributeLabel::Result => 1,
            AttributeLabel::ClampMax => 2,
            AttributeLabel::ClampMin => 3,
        }
    }

    /// The place of the stage in the pipeline.
    #[verifier::when_used_as_spec(spec_index)]
    pub fn index(self) -> (i: u8)
        ensures
            i == self.index(),
    {
        match self {
            AttributeLabel::MaxResult => 0,
            AttributeLabel::Result => 1,
            AttributeLabel::ClampMax => 2,
            AttributeLabel::ClampMin => 3,
        }
    }

    /// The phase of the tick in which the stage runs, in contracts.
    pub open spec fn spec_phase(self) -> Phase {
        match self {
            AttributeLabel::MaxResult => Phase::Update,
            AttributeLabel::Result => Phase::Update,
            AttributeLabel::ClampMax => Phase::PostUpdate,
            AttributeLabel::ClampMin => Phase::PostUpdate,
        }
    }

    /// The phase of the tick in which the stage runs.
    #[verifier::when_used_as_spec(spec_phase)]
    pub fn phase(self) -> (p: Phase)
        ensures
            p == self.phase(),
    {
        match self {
            AttributeLabel::MaxResult => Phase::Update,
            AttributeLabel::Result => Phase::Update,
            AttributeLabel::ClampMax => Phase::PostUpdate,
            AttributeLabel::ClampMin => Phase::PostUpdate,
        }
    }

    /// Whether the stage has to be over before `other` starts.
    pub open spec fn before(self, other: AttributeLabel) -> bool {
        self.index() < other.index()
    }

    /// Whether the stage has to be over before `other` starts.
    pub fn runs_before(self, other: AttributeLabel) -> (b: bool)
        ensures
            b == self.before(other),
    {
        self.index() < other.index()
    }
}

/// The order of the stages is strict and total, and it is carried over from
/// stage to stage: what is computed before the attribute is computed is also
/// computed before the attribute is clamped. It never runs against the order
/// of the phases.
pub proof fn lemma_stage_order(a: AttributeLabel, b: AttributeLabel, c: AttributeLabel)
    ensures
        !a.before(a),
        a.before(b) && b.before(c) ==> a.before(c),
        a == b || a.before(b) || b.before(a),
        a.before(b) ==> a.phase().index() <= b.phase().index(),
        AttributeLabel::MaxResult.before(AttributeLabel::ClampMax),
        AttributeLabel::Result.before(AttributeLabel::ClampMax),
        AttributeLabel::Result.before(AttributeLabel::ClampMin),
{
}

/// The attribute pipeline as a whole: which stages there are, and in which
/// order a tick runs them.
#[derive(Debug, Clone, Copy, Default)]
pub struct SimpleAttributePlugin;

impl SimpleAttributePlugin {
    /// The stages in the order in which a tick runs them: each has to be
    /// over before the next one starts.
    pub fn schedule(&self) -> (stages: Vec<AttributeLabel>)
        ensures
            stages@ == seq![
                AttributeLabel::MaxResult,
                AttributeLabel::Result,
                AttributeLabel::ClampMax,
                AttributeLabel::ClampMin,
            ],
            forall|i: int, j: int|
                0 <= i < j < stages@.len() ==> (#[trigger] stages@[i]).before(
                    #[trigger] stages@[j],
                ),
    {
        let mut stages: Vec<AttributeLabel> = Vec::new();
        stages.push(AttributeLabel::MaxResult);
        stages.push(AttributeLabel::Result);
        stages.push(AttributeLabel::ClampMax);
        stages.push(AttributeLabel::ClampMin);
        stages
    }
}

/// What has changed on one entity since the pipeline last ran on it. An
/// attribute or layer that is seen for the first time counts as changed.
#[derive(Clone, Copy, Debug, PartialEq, Eq, Structural)]
pub struct Changed {
    /// The base, add or mult layer.
    pub modifiers: bool,
    /// The attribute's own amount.
    pub current: bool,
    /// The max layer.
    pub max: bool,
    /// The min layer.
    pub min: bool,
}

/// What one pass leaves behind: the amount, and whether any stage wrote it.
pub struct Outcome {
    pub value: int,
    pub written: bool,
}

/// One pass of the pipeline over an attribute whose amount is `cur`. The
/// modifiers are folded in where one of them changed; then the amount is cut
/// down to the max layer where the amount or that layer changed; then it is
/// raised to the min layer where the amount or that layer changed. A write by
/// an earlier stage is a change of the amount for the later ones.
pub open spec fn pass(
    cur: int,
    base: Option<int>,
    add: Option<int>,
    mult: Option<int>,
    max: Option<int>,
    min: Option<int>,
    changed: Changed,
) -> Outcome {
    let v1 = if changed.modifiers {
        modified(base, add, mult)
    } else {
        cur
    };
    let c1 = changed.current || v1 != cur;
    let v2 = if c1 || changed.max {
        clamped_max(v1, max)
    } else {
        v1
    };
    let c2 = c1 || v2 != v1;
    let v3 = if c2 || changed.min {
        clamped_min(v2, min)
    } else {
        v2
    };
    Outcome { value: v3, written: v1 != cur || v2 != v1 || v3 != v2 }
}

/// Runs one pass of the pipeline on `current`: the modifiers, then the upper
/// bound, then the lower bound, each stage only where `changed` or an earlier
/// write calls for it. The result says whether any stage wrote the amount,
/// which is the change that the next pass has to be told of. Where the
/// modifiers are due and their result does not fit, nothing is written.
pub fn recompute<A>(
    current: &mut Attribute<A>,
    base: Option<&Attribute<Base<A>>>,
    add: Option<&Attribute<Add<A>>>,
    mult: Option<&Attribute<Mult<A>>>,
    max: Option<&Attribute<Max<A>>>,
    min: Option<&Attribute<Min<A>>>,
    changed: Changed,
) -> (r: Result<bool, Overflow>)
    ensures
        final(current).inner() == old(current).inner(),
        changed.modifiers && !fits(
            modified(layer_value(base), layer_value(add), layer_value(mult)),
        ) ==> {
            &&& r.is_err()
            &&& final(current).value() == old(current).value()
        },
        !changed.modifiers || fits(
            modified(layer_value(base), layer_value(add), layer_value(mult)),
        ) ==> {
            &&& final(current).value() == pass(
                old(current).value(),
                layer_value(base),
                layer_value(add),
                layer_value(mult),
                layer_value(max),
                layer_value(min),
                changed,
            ).value
            &&& r == Ok::<bool, Overflow>(
                pass(
                    old(current).value(),
                    layer_value(base),
                    layer_value(add),
                    layer_value(mult),
                    layer_value(max),
                    layer_value(min),
                    changed,
                ).written,
            )
        },
{
    let mut written = false;
    if changed.modifiers {
        match basic_modifiers(current, base, add, mult) {
            Ok(w) => {
                written = w;
            },
            Err(e) => {
                return Err(e);
            },
        }
    }
    if let Some(max) = max {
        if changed.current || changed.max || written {
            let w = clamp_max(current, max);
            written = written || w;
        }
    }
    if let Some(min) = min {
        if changed.current || changed.min || written {
            let w = clamp_min(current, min);
            written = written || w;
        }
    }
    Ok(written)
}

/// Runs one pass of the pipeline on an attribute whose max layer has
/// modifiers of its own. The max layer is brought up to date first, and only
/// then is the attribute computed and clamped, so that the bound it is held
/// to is this tick's and not the last one's. `max_modifiers` says whether a
/// modifier of the max layer changed; a write to the max layer counts as a
/// change of it.
///
/// The result says whether the attribute was written. Where the new max does
/// not fit, nothing is written; where the attribute's new amount does not
/// fit, the max layer is up to date and the attribute is as it was.
pub fn recompute_with_max<A>(
    current: &mut Attribute<A>,
    base: Option<&Attribute<Base<A>>>,
    add: Option<&Attribute<Add<A>>>,
    mult: Option<&Attribute<Mult<A>>>,
    max: &mut Attribute<Max<A>>,
    max_base: Option<&Attribute<Base<Max<A>>>>,
    max_add: Option<&Attribute<Add<Max<A>>>>,
    max_mult: Option<&Attribute<Mult<Max<A>>>>,
    min: Option<&Attribute<Min<A>>>,
    changed: Changed,
    max_modifiers: bool,
) -> (r: Result<bool, Overflow>)
    ensures
        final(current).inner() == old(current).inner(),
        final(max).inner() == old(max).inner(),
        ({
            let new_max = if max_modifiers {
                modified(layer_value(max_base), layer_value(max_add), layer_value(max_mult))
            } else {
                old(max).value()
            };
            let new = modified(layer_value(base), layer_value(add), layer_value(mult));
            let seen = Changed {
                modifiers: changed.modifiers,
                current: changed.current,
                max: changed.max || new_max != old(max).value(),
                min: changed.min,
            };
            let outcome = pass(
                old(current).value(),
                layer_value(base),
                layer_value(add),
                layer_value(mult),
                Some(new_max),
                layer_value(min),
                seen,
            );
            if !fits(new_max) {
                &&& r.is_err()
                &&& final(max).value() == old(max).value()
                &&& final(current).value() == old(current).value()
            } else if changed.modifiers && !fits(new) {
                &&& r.is_err()
                &&& final(max).value() == new_max
                &&& final(current).value() == old(current).value()
            } else {
                &&& r == Ok::<bool, Overflow>(outcome.written)
                &&& final(max).value() == new_max
                &&& final(current).value() == outcome.value
            }
        }),
{
    let mut seen = changed;
    if max_modifiers {
        match basic_modifiers(max, max_base, max_add, max_mult) {
            Ok(w) => {
                seen.max = seen.max || w;
            },
            Err(e) => {
                return Err(e);
            },
        }
    }
    recompute(current, base, add, mult, Some(&*max), min, seen)
}

/// After a pass in which the modifiers and the amount count as changed, as
/// they do when the attribute is evaluated for the first time, the amount is
/// `base * mult + add` brought into the range from min to max.
pub proof fn lemma_recompute_correct(
    cur: int,
    base: Option<int>,
    add: Option<int>,
    mult: Option<int>,
    max: Option<int>,
    min: Option<int>,
    changed: Changed,
)
    requires
        changed.modifiers,
        changed.current,
    ensures
        pass(cur, base, add, mult, max, min, changed).value == clamp(
            modified(base, add, mult),
            min,
            max,
        ),
{
}

/// After a pass in which the amount counts as changed, or was written, the
/// amount is not above the max layer and not below the min layer, where min
/// is not above max.
pub proof fn lemma_recompute_in_range(
    cur: int,
    base: Option<int>,
    add: Option<int>,
    mult: Option<int>,
    max: Option<int>,
    min: Option<int>,
    changed: Changed,
)
    requires
        changed.current || pass(cur, base, add, mult, max, min, changed).written,
        max is Some && min is Some ==> min->0 <= max->0,
    ensures
        max is Some ==> pass(cur, base, add, mult, max, min, changed).value <= max->0,
        min is Some ==> pass(cur, base, add, mult, max, min, changed).value >= min->0,
{
}

/// A second pass with no layer changed in between writes nothing and leaves
/// the amount as it is, so it does not call for a third. The only change the
/// second pass is told of is what the first one wrote. This needs min not to
/// be above max: otherwise the two bounds undo each other's write in every
/// pass.
pub proof fn lemma_recompute_idempotent(
    cur: int,
    base: Option<int>,
    add: Option<int>,
    mult: Option<int>,
    max: Option<int>,
    min: Option<int>,
    changed: Changed,
)
    requires
        max is Some && min is Some ==> min->0 <= max->0,
    ensures
        ({
            let first = pass(cur, base, add, mult, max, min, changed);
            let again = Changed {
                modifiers: false,
                current: first.written,
                max: false,
                min: false,
            };
            let second = pass(first.value, base, add, mult, max, min, again);
            &&& second.value == first.value
            &&& !second.written
        }),
{
}

} // verus!
