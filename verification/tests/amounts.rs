use derived_state::amount::{Amount, ONE_BITS};

#[test]
fn from_num_shifts_by_the_fractional_bits() {
    assert_eq!(Amount::from_num(0).to_bits(), 0);
    assert_eq!(Amount::from_num(1).to_bits(), 16);
    assert_eq!(Amount::from_num(11).to_bits(), 176);
    assert_eq!(Amount::from_num(-3).to_bits(), -48);
    assert_eq!(Amount::one().to_bits(), ONE_BITS);
    assert_eq!(Amount::zero(), Amount::from_num(0));
    assert_eq!(Amount::one(), Amount::from_num(1));
}

#[test]
fn checked_from_num_tells_when_the_integer_does_not_fit() {
    let largest = i64::MAX / 16;
    assert_eq!(
        Amount::checked_from_num(largest).map(|a| a.to_bits()),
        Some(largest * 16)
    );
    assert_eq!(Amount::checked_from_num(largest + 1), None);
    let smallest = i64::MIN / 16;
    assert_eq!(
        Amount::checked_from_num(smallest).map(|a| a.to_bits()),
        Some(i64::MIN)
    );
    assert_eq!(Amount::checked_from_num(smallest - 1), None);
    assert_eq!(Amount::checked_from_num(i64::MAX), None);
    assert_eq!(Amount::checked_from_num(i64::MIN), None);
}

#[test]
fn from_bits_and_to_bits_are_inverse() {
    for bits in [0i64, 1, -1, 16, 1234567, i64::MAX, i64::MIN] {
        assert_eq!(Amount::from_bits(bits).to_bits(), bits);
    }
}

#[test]
fn checked_add_adds_bit_patterns() {
    let a = Amount::from_bits(24);
    let b = Amount::from_bits(-40);
    assert_eq!(a.checked_add(b), Some(Amount::from_bits(-16)));
    assert_eq!(
        Amount::from_bits(i64::MAX - 1).checked_add(Amount::from_bits(1)),
        Some(Amount::from_bits(i64::MAX))
    );
    assert_eq!(Amount::from_bits(i64::MAX).checked_add(Amount::from_bits(1)), None);
    assert_eq!(Amount::from_bits(i64::MIN).checked_add(Amount::from_bits(-1)), None);
}

#[test]
fn checked_mul_add_multiplies_in_sixteenths() {
    // 1.5 * 2.5 + 0.25 == 4
    let r = Amount::from_bits(24).checked_mul_add(Amount::from_bits(40), Amount::from_bits(4));
    assert_eq!(r, Some(Amount::from_bits(64)));
    // 10 * 1 + 0 == 10
    let r = Amount::from_num(10).checked_mul_add(Amount::one(), Amount::zero());
    assert_eq!(r, Some(Amount::from_num(10)));
    // 3 * 2 + 1 == 7
    let r = Amount::from_num(3).checked_mul_add(Amount::from_num(2), Amount::from_num(1));
    assert_eq!(r, Some(Amount::from_num(7)));
}

#[test]
fn checked_mul_add_rounds_the_product_down() {
    // One sixteenth times one sixteenth is below one sixteenth.
    let tiny = Amount::from_bits(1);
    assert_eq!(tiny.checked_mul_add(tiny, Amount::zero()), Some(Amount::from_bits(0)));
    // Towards minus infinity, not towards zero.
    let minus_tiny = Amount::from_bits(-1);
    assert_eq!(
        minus_tiny.checked_mul_add(tiny, Amount::zero()),
        Some(Amount::from_bits(-1))
    );
    // -0.4375 * 0.4375 == -0.19140625, which is -3.0625 sixteenths.
    assert_eq!(
        Amount::from_bits(-7).checked_mul_add(Amount::from_bits(7), Amount::from_bits(2)),
        Some(Amount::from_bits(-2))
    );
}

#[test]
fn checked_mul_add_overflows_only_on_the_final_sum() {
    let max = Amount::from_bits(i64::MAX);
    assert_eq!(max.checked_mul_add(Amount::one(), Amount::zero()), Some(max));
    assert_eq!(max.checked_mul_add(Amount::one(), Amount::from_bits(1)), None);
    // MAX * 1.5 overflows, MAX * 1.5 - MAX does not.
    let r = max.checked_mul_add(Amount::from_bits(24), Amount::from_bits(-i64::MAX));
    assert_eq!(r, Some(Amount::from_bits(i64::MAX / 2)));
    assert_eq!(max.checked_mul_add(Amount::from_num(2), Amount::zero()), None);
    let min = Amount::from_bits(i64::MIN);
    assert_eq!(min.checked_mul_add(Amount::from_num(2), Amount::zero()), None);
    assert_eq!(min.checked_mul_add(Amount::one(), Amount::zero()), Some(min));
}
