//! Fixed-point amounts with four fractional bits.
//!
//! An [`Amount`] is a signed 64-bit pattern read in sixteenths: the pattern
//! `16` stands for one. The arithmetic is done by the `fixed` crate; the
//! contracts here speak of the bit patterns as integers.

use fixed::types::extra::U4;
use fixed::FixedI64;
use vstd::prelude::*;

verus! {

/// The bit pattern of one.
pub const ONE_BITS: i64 = 16;

/// Whether an integer is the bit pattern of some amount.
pub open spec fn fits(bits: int) -> bool {
    i64::MIN <= bits <= i64::MAX
}

/// The bit pattern of `lhs * mul + add`: the product of two patterns, brought
/// back to sixteenths by rounding down, plus the third.
pub open spec fn mul_add_bits(lhs: int, mul: int, add: int) -> int {
    (lhs * mul) / 16 + add
}

/// A signed fixed-point number with four fractional bits.
#[derive(Clone, Copy, Debug, PartialEq, Eq, Structural, Hash)]
pub struct Amount {
    /// The value in sixteenths.
    pub bits: i64,
}

/// The arithmetic result does not fit in an [`Amount`].
#[derive(Clone, Copy, Debug, PartialEq, Eq, Structural)]
pub struct Overflow;

impl View for Amount {
    type V = int;

    /// The bit pattern, that is the value in sixteenths.
    open spec fn view(&self) -> int {
        self.bits as int
    }
}

/// `FixedI64::<U4>::checked_mul_add` on bit patterns. The crate multiplies
/// exactly in 128 bits, shifts the product right by the four fractional bits
/// (rounding down), adds `add`, and reports overflow only when the final sum
/// does not fit in 64 bits.
#[verifier::external_body]
fn fixed_checked_mul_add(lhs: i64, mul: i64, add: i64) -> (r: Option<i64>)
    ensures
        fits(mul_add_bits(lhs as int, mul as int, add as int)) ==> r == Some(
            mul_add_bits(lhs as int, mul as int, add as int) as i64,
        ),
        !fits(mul_add_bits(lhs as int, mul as int, add as int)) ==> r.is_none(),
{
    let lhs = FixedI64::<U4>::from_bits(lhs);
    let mul = FixedI64::<U4>::from_bits(mul);
    match lhs.checked_mul_add(mul, FixedI64::<U4>::from_bits(add)) {
        Some(v) => Some(v.to_bits()),
        None => None,
    }
}

/// `FixedI64::<U4>::checked_add` on bit patterns: the sum of the patterns,
/// or `None` when it does not fit in 64 bits.
#[verifier::external_body]
fn fixed_checked_add(lhs: i64, rhs: i64) -> (r: Option<i64>)
    ensures
        fits(lhs + rhs) ==> r == Some((lhs + rhs) as i64),
        !fits(lhs + rhs) ==> r.is_none(),
{
    match FixedI64::<U4>::from_bits(lhs).checked_add(FixedI64::<U4>::from_bits(rhs)) {
        Some(v) => Some(v.to_bits()),
        None => None,
    }
}

/// `FixedI64::<U4>::checked_from_num` for a 64-bit integer: the integer
/// shifted left by the four fractional bits, or `None` when that does not fit.
#[verifier::external_body]
fn fixed_checked_from_num(n: i64) -> (r: Option<i64>)
    ensures
        fits(n * 16) ==> r == Some((n * 16) as i64),
        !fits(n * 16) ==> r.is_none(),
{
    match FixedI64::<U4>::checked_from_num(n) {
        Some(v) => Some(v.to_bits()),
        None => None,
    }
}

impl Amount {
    /// Zero.
    pub fn zero() -> (r: Amount)
        ensures
            r@ == 0,
    {
        Amount { bits: 0 }
    }

    /// One.
    pub fn one() -> (r: Amount)
        ensures
            r@ == ONE_BITS,
    {
        Amount { bits: ONE_BITS }
    }

    /// The amount with the given bit pattern.
    pub fn from_bits(bits: i64) -> (r: Amount)
        ensures
            r@ == bits,
    {
        Amount { bits }
    }

    /// The bit pattern.
    pub fn to_bits(self) -> (bits: i64)
        ensures
            bits == self@,
    {
        self.bits
    }

    /// The amount that stands for the integer `n`, if there is one.
    pub fn checked_from_num(n: i64) -> (r: Option<Amount>)
        ensures
            fits(n * 16) ==> r.is_some() && r.unwrap()@ == n * 16,
            !fits(n * 16) ==> r.is_none(),
    {
        match fixed_checked_from_num(n) {
            Some(bits) => Some(Amount { bits }),
            None => None,
        }
    }

    /// The amount that stands for the integer `n`.
    pub fn from_num(n: i64) -> (r: Amount)
        requires
            fits(n * 16),
        ensures
            r@ == n * 16,
    {
        match fixed_checked_from_num(n) {
            Some(bits) => Amount { bits },
            None => vstd::pervasive::unreached(),
        }
    }

    /// `self + rhs`, or `None` on overflow.
    pub fn checked_add(self, rhs: Amount) -> (r: Option<Amount>)
        ensures
            fits(self@ + rhs@) ==> r.is_some() && r.unwrap()@ == self@ + rhs@,
            !fits(self@ + rhs@) ==> r.is_none(),
    {
        match fixed_checked_add(self.bits, rhs.bits) {
            Some(bits) => Some(Amount { bits }),
            None => None,
        }
    }

    /// `self * mul + add`, or `None` when the result overflows. A product that
    /// overflows on its own is no overflow if the sum fits.
    pub fn checked_mul_add(self, mul: Amount, add: Amount) -> (r: Option<Amount>)
        ensures
            fits(mul_add_bits(self@, mul@, add@)) ==> r.is_some() && r.unwrap()@ == mul_add_bits(
                self@,
                mul@,
                add@,
            ),
            !fits(mul_add_bits(self@, mul@, add@)) ==> r.is_none(),
    {
        match fixed_checked_mul_add(self.bits, mul.bits, add.bits) {
            Some(bits) => Some(Amount { bits }),
            None => None,
        }
    }
}

} // verus!
