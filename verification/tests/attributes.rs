use derived_state::ability::attribute::attribute::{
    basic_modifiers, clamp_max, clamp_min, recompute, recompute_with_max, Add, Attribute,
    AttributeLabel, Base, Changed, Max, Min, Mult, SimpleAttributePlugin,
};
use derived_state::ability::attribute::health::{
    regen as regen_health, Damage, DamageHistory, Health as HealthPoints, HealthRegen, MaxHealth,
};
use derived_state::ability::attribute::regen::{regen, regen_unless_zero, Regen};
use derived_state::amount::{Amount, Overflow};
use derived_state::entity::Entity;
use derived_state::schedule::Phase;

#[derive(Default, Debug, PartialEq)]
pub struct Health;

#[derive(Default, Debug, PartialEq)]
pub struct MovementSpeed;

const FIRST: Changed = Changed { modifiers: true, current: true, max: true, min: true };

const NOTHING: Changed = Changed { modifiers: false, current: false, max: false, min: false };

fn amount<A: Default>(n: i64) -> Attribute<A> {
    Attribute::new(Amount::from_num(n))
}

#[test]
fn attribute_test() {
    let mut health = Attribute::<Health>::new(Amount::from_num(11));
    let health_base = Attribute::<Base<Health>>::new(Amount::from_num(10));
    let mut health_max = Attribute::<Max<Health>>::new(Amount::from_num(10));

    let mut speed = Attribute::<MovementSpeed>::new(Amount::from_num(0));
    let speed_base = Attribute::<Base<MovementSpeed>>::new(Amount::from_num(1));
    let speed_mult = Attribute::<Mult<MovementSpeed>>::new(Amount::from_num(1));
    let speed_add = Attribute::<Add<MovementSpeed>>::new(Amount::from_num(1));

    assert_eq!(*health.amount(), Amount::from_num(11));
    assert_eq!(*speed.amount(), Amount::from_num(0));

    // One tick: the stages in the order of the schedule, each on the
    // entities that have what it asks for.
    for stage in SimpleAttributePlugin.schedule() {
        match stage {
            AttributeLabel::MaxResult => {
                // The max layer of health has no modifiers of its own: no match.
                let _ = &mut health_max;
            }
            AttributeLabel::Result => {
                basic_modifiers(&mut health, Some(&health_base), None, None).unwrap();
                basic_modifiers(
                    &mut speed,
                    Some(&speed_base),
                    Some(&speed_add),
                    Some(&speed_mult),
                )
                .unwrap();
            }
            AttributeLabel::ClampMax => {
                clamp_max(&mut health, &health_max);
            }
            AttributeLabel::ClampMin => {}
        }
    }

    assert_eq!(*health.amount(), Amount::from_num(10));
    assert_eq!(*speed.amount(), Amount::from_num(2));
}

#[test]
fn ordering_scenario_through_one_pass() {
    let mut health = amount::<Health>(11);
    let base = amount::<Base<Health>>(10);
    let max = amount::<Max<Health>>(10);
    let written = recompute(&mut health, Some(&base), None, None, Some(&max), None, FIRST);
    assert_eq!(written, Ok(true));
    assert_eq!(*health.amount(), Amount::from_num(10));

    let mut speed = amount::<MovementSpeed>(0);
    let base = amount::<Base<MovementSpeed>>(1);
    let mult = amount::<Mult<MovementSpeed>>(1);
    let add = amount::<Add<MovementSpeed>>(1);
    let written = recompute(&mut speed, Some(&base), Some(&add), Some(&mult), None, None, FIRST);
    assert_eq!(written, Ok(true));
    assert_eq!(*speed.amount(), Amount::from_num(2));
}

#[test]
fn new_and_with_inner_keep_what_they_are_given() {
    let a = Attribute::<u8>::new(Amount::from_num(3));
    assert_eq!(*a.amount(), Amount::from_num(3));
    assert_eq!(*a.inner(), 0u8);
    let mut b = Attribute::with_inner(Amount::from_num(4), 7u8);
    assert_eq!(*b.amount(), Amount::from_num(4));
    assert_eq!(*b.inner(), 7u8);
    *b.inner_mut() = 9;
    assert_eq!(*b.inner(), 9u8);
    assert_eq!(*b.amount(), Amount::from_num(4));
    b.set_amount(Amount::from_num(5));
    assert_eq!(*b.amount(), Amount::from_num(5));
    assert_eq!(*b.inner(), 9u8);
}

#[test]
fn basic_modifiers_uses_identities_for_missing_layers() {
    let mut a = amount::<Health>(7);
    assert_eq!(basic_modifiers(&mut a, None, None, None), Ok(true));
    assert_eq!(*a.amount(), Amount::from_num(0));

    let base = amount::<Base<Health>>(6);
    assert_eq!(basic_modifiers(&mut a, Some(&base), None, None), Ok(true));
    assert_eq!(*a.amount(), Amount::from_num(6));

    let add = amount::<Add<Health>>(5);
    assert_eq!(basic_modifiers(&mut a, None, Some(&add), None), Ok(true));
    assert_eq!(*a.amount(), Amount::from_num(5));

    let mult = amount::<Mult<Health>>(3);
    assert_eq!(basic_modifiers(&mut a, None, None, Some(&mult)), Ok(true));
    assert_eq!(*a.amount(), Amount::from_num(0));

    assert_eq!(basic_modifiers(&mut a, Some(&base), Some(&add), Some(&mult)), Ok(true));
    assert_eq!(*a.amount(), Amount::from_num(23));
}

#[test]
fn basic_modifiers_writes_only_on_change() {
    let mut a = Attribute::with_inner(Amount::from_num(0), 42u8);
    let base = amount::<Base<u8>>(4);
    let mult = Attribute::<Mult<u8>>::new(Amount::from_bits(24));
    assert_eq!(basic_modifiers(&mut a, Some(&base), None, Some(&mult)), Ok(true));
    assert_eq!(*a.amount(), Amount::from_num(6));
    assert_eq!(basic_modifiers(&mut a, Some(&base), None, Some(&mult)), Ok(false));
    assert_eq!(*a.amount(), Amount::from_num(6));
    assert_eq!(*a.inner(), 42u8);
}

#[test]
fn basic_modifiers_reports_overflow_and_writes_nothing() {
    let mut a = amount::<Health>(1);
    let base = Attribute::<Base<Health>>::new(Amount::from_bits(i64::MAX));
    let mult = amount::<Mult<Health>>(2);
    assert_eq!(basic_modifiers(&mut a, Some(&base), None, Some(&mult)), Err(Overflow));
    assert_eq!(*a.amount(), Amount::from_num(1));
    // The product alone overflows, the sum does not.
    let add = Attribute::<Add<Health>>::new(Amount::from_bits(-i64::MAX));
    assert_eq!(basic_modifiers(&mut a, Some(&base), Some(&add), Some(&mult)), Ok(true));
    assert_eq!(*a.amount(), Amount::from_bits(i64::MAX));
}

#[test]
fn clamps_write_only_outside_the_range() {
    let max = amount::<Max<Health>>(10);
    let min = amount::<Min<Health>>(2);
    let mut a = amount::<Health>(11);
    assert!(clamp_max(&mut a, &max));
    assert_eq!(*a.amount(), Amount::from_num(10));
    assert!(!clamp_max(&mut a, &max));
    assert!(!clamp_min(&mut a, &min));
    assert_eq!(*a.amount(), Amount::from_num(10));
    a.set_amount(Amount::from_num(-5));
    assert!(!clamp_max(&mut a, &max));
    assert!(clamp_min(&mut a, &min));
    assert_eq!(*a.amount(), Amount::from_num(2));
    assert!(!clamp_min(&mut a, &min));
    a.set_amount(Amount::from_num(2));
    assert!(!clamp_min(&mut a, &min));
    a.set_amount(Amount::from_num(10));
    assert!(!clamp_max(&mut a, &max));
}

#[test]
fn recompute_gives_the_clamped_result() {
    // (base, add, mult, max, min, expected), whole numbers
    let cases: [(i64, i64, i64, i64, i64, i64); 6] = [
        (10, 0, 1, 10, 0, 10),
        (3, 1, 4, 100, 0, 13),
        (3, 1, 4, 12, 0, 12),
        (3, 1, -4, 12, -5, -5),
        (0, 0, 0, 0, 0, 0),
        (-2, -2, 2, 7, -7, -6),
    ];
    for (b, a, m, x, n, expected) in cases {
        let mut current = amount::<Health>(1000);
        let base = amount::<Base<Health>>(b);
        let add = amount::<Add<Health>>(a);
        let mult = amount::<Mult<Health>>(m);
        let max = amount::<Max<Health>>(x);
        let min = amount::<Min<Health>>(n);
        let r = recompute(
            &mut current,
            Some(&base),
            Some(&add),
            Some(&mult),
            Some(&max),
            Some(&min),
            FIRST,
        );
        assert_eq!(r, Ok(true));
        assert_eq!(*current.amount(), Amount::from_num(expected));
    }
}

#[test]
fn recompute_twice_writes_nothing_the_second_time() {
    let mut current = amount::<Health>(11);
    let base = amount::<Base<Health>>(20);
    let max = amount::<Max<Health>>(10);
    let min = amount::<Min<Health>>(0);
    let first = recompute(&mut current, Some(&base), None, None, Some(&max), Some(&min), FIRST);
    assert_eq!(first, Ok(true));
    assert_eq!(*current.amount(), Amount::from_num(10));
    let again = Changed { modifiers: false, current: true, max: false, min: false };
    let second = recompute(&mut current, Some(&base), None, None, Some(&max), Some(&min), again);
    assert_eq!(second, Ok(false));
    assert_eq!(*current.amount(), Amount::from_num(10));
    let third = recompute(&mut current, Some(&base), None, None, Some(&max), Some(&min), NOTHING);
    assert_eq!(third, Ok(false));
    assert_eq!(*current.amount(), Amount::from_num(10));
}

#[test]
fn recompute_with_min_above_max_never_settles() {
    let mut current = amount::<Health>(5);
    let max = amount::<Max<Health>>(3);
    let min = amount::<Min<Health>>(8);
    let first = recompute(&mut current, None, None, None, Some(&max), Some(&min), FIRST);
    assert_eq!(first, Ok(true));
    assert_eq!(*current.amount(), Amount::from_num(8));
    let again = Changed { modifiers: false, current: true, max: false, min: false };
    let second = recompute(&mut current, None, None, None, Some(&max), Some(&min), again);
    assert_eq!(second, Ok(true));
    assert_eq!(*current.amount(), Amount::from_num(8));
}

#[test]
fn recompute_runs_only_the_stages_that_are_due() {
    let base = amount::<Base<Health>>(20);
    let max = amount::<Max<Health>>(10);
    // Nothing changed: a stale amount stays.
    let mut current = amount::<Health>(50);
    assert_eq!(
        recompute(&mut current, Some(&base), None, None, Some(&max), None, NOTHING),
        Ok(false)
    );
    assert_eq!(*current.amount(), Amount::from_num(50));
    // Only the max layer changed: the amount is clamped, not recomputed.
    let only_max = Changed { modifiers: false, current: false, max: true, min: false };
    let mut current = amount::<Health>(5);
    assert_eq!(
        recompute(&mut current, Some(&base), None, None, Some(&max), None, only_max),
        Ok(false)
    );
    assert_eq!(*current.amount(), Amount::from_num(5));
    let mut current = amount::<Health>(50);
    assert_eq!(
        recompute(&mut current, Some(&base), None, None, Some(&max), None, only_max),
        Ok(true)
    );
    assert_eq!(*current.amount(), Amount::from_num(10));
}

#[test]
fn recompute_reports_overflow_and_writes_nothing() {
    let mut current = amount::<Health>(1);
    let base = Attribute::<Base<Health>>::new(Amount::from_bits(i64::MAX));
    let mult = amount::<Mult<Health>>(2);
    let max = amount::<Max<Health>>(0);
    let r = recompute(&mut current, Some(&base), None, Some(&mult), Some(&max), None, FIRST);
    assert_eq!(r, Err(Overflow));
    assert_eq!(*current.amount(), Amount::from_num(1));
    // Where the modifiers are not due, their overflow is not met.
    let only_current = Changed { modifiers: false, current: true, max: false, min: false };
    let r =
        recompute(&mut current, Some(&base), None, Some(&mult), Some(&max), None, only_current);
    assert_eq!(r, Ok(true));
    assert_eq!(*current.amount(), Amount::from_num(0));
}

#[test]
fn derived_max_is_computed_before_it_is_used() {
    // The stored max is stale: its own base has grown to 20.
    let mut health = amount::<Health>(0);
    let base = amount::<Base<Health>>(15);
    let mut max = amount::<Max<Health>>(10);
    let max_base = amount::<Base<Max<Health>>>(20);
    let r = recompute_with_max(
        &mut health,
        Some(&base),
        None,
        None,
        &mut max,
        Some(&max_base),
        None,
        None,
        None,
        FIRST,
        true,
    );
    assert_eq!(r, Ok(true));
    assert_eq!(*max.amount(), Amount::from_num(20));
    assert_eq!(*health.amount(), Amount::from_num(15));

    // The max shrinks while nothing else changes: the attribute follows.
    let max_base = amount::<Base<Max<Health>>>(12);
    let r = recompute_with_max(
        &mut health,
        Some(&base),
        None,
        None,
        &mut max,
        Some(&max_base),
        None,
        None,
        None,
        NOTHING,
        true,
    );
    assert_eq!(r, Ok(true));
    assert_eq!(*max.amount(), Amount::from_num(12));
    assert_eq!(*health.amount(), Amount::from_num(12));
}

#[test]
fn derived_max_overflow_leaves_everything() {
    let mut health = amount::<Health>(3);
    let base = amount::<Base<Health>>(15);
    let mut max = amount::<Max<Health>>(10);
    let max_base = Attribute::<Base<Max<Health>>>::new(Amount::from_bits(i64::MAX));
    let max_mult = amount::<Mult<Max<Health>>>(2);
    let r = recompute_with_max(
        &mut health,
        Some(&base),
        None,
        None,
        &mut max,
        Some(&max_base),
        None,
        Some(&max_mult),
        None,
        FIRST,
        true,
    );
    assert_eq!(r, Err(Overflow));
    assert_eq!(*max.amount(), Amount::from_num(10));
    assert_eq!(*health.amount(), Amount::from_num(3));
}

#[test]
fn regen_adds_up_to_the_max() {
    let rate = amount::<Regen<Health>>(5);
    let max = amount::<Max<Health>>(10);
    let mut a = amount::<Health>(1);
    assert_eq!(regen(&mut a, &rate, Some(&max)), Ok(true));
    assert_eq!(*a.amount(), Amount::from_num(6));
    assert_eq!(regen(&mut a, &rate, Some(&max)), Ok(true));
    assert_eq!(*a.amount(), Amount::from_num(10));
    assert_eq!(regen(&mut a, &rate, Some(&max)), Ok(false));
    assert_eq!(*a.amount(), Amount::from_num(10));
    // Without a max nothing holds it back.
    assert_eq!(regen(&mut a, &rate, None), Ok(true));
    assert_eq!(*a.amount(), Amount::from_num(15));
    // Plain regen does not care for zero.
    let mut dead = amount::<Health>(0);
    assert_eq!(regen(&mut dead, &rate, Some(&max)), Ok(true));
    assert_eq!(*dead.amount(), Amount::from_num(5));
}

#[test]
fn regen_unless_zero_leaves_the_dead_alone() {
    let rate = amount::<Regen<Health>>(5);
    let max = amount::<Max<Health>>(10);
    let mut dead = amount::<Health>(0);
    assert_eq!(regen_unless_zero(&mut dead, &rate, Some(&max)), Ok(false));
    assert_eq!(*dead.amount(), Amount::from_num(0));
    let mut below = amount::<Health>(-4);
    assert_eq!(regen_unless_zero(&mut below, &rate, None), Ok(false));
    assert_eq!(*below.amount(), Amount::from_num(-4));
    let mut alive = Attribute::<Health>::new(Amount::from_bits(1));
    assert_eq!(regen_unless_zero(&mut alive, &rate, Some(&max)), Ok(true));
    assert_eq!(*alive.amount(), Amount::from_bits(81));
    assert_eq!(regen_unless_zero(&mut alive, &rate, Some(&max)), Ok(true));
    assert_eq!(*alive.amount(), Amount::from_num(10));
    assert_eq!(regen_unless_zero(&mut alive, &rate, Some(&max)), Ok(false));
}

#[test]
fn regen_overflow() {
    let rate = Attribute::<Regen<Health>>::new(Amount::from_bits(i64::MAX));
    let max = amount::<Max<Health>>(10);
    // Upwards under a max: the max cuts the sum down.
    let mut a = amount::<Health>(1);
    assert_eq!(regen(&mut a, &rate, Some(&max)), Ok(true));
    assert_eq!(*a.amount(), Amount::from_num(10));
    let mut a = amount::<Health>(1);
    assert_eq!(regen_unless_zero(&mut a, &rate, Some(&max)), Ok(true));
    assert_eq!(*a.amount(), Amount::from_num(10));
    // Upwards without a max: nothing fits.
    let mut a = amount::<Health>(1);
    assert_eq!(regen(&mut a, &rate, None), Err(Overflow));
    assert_eq!(*a.amount(), Amount::from_num(1));
    let mut a = amount::<Health>(1);
    assert_eq!(regen_unless_zero(&mut a, &rate, None), Err(Overflow));
    assert_eq!(*a.amount(), Amount::from_num(1));
    // Downwards: no max helps.
    let drain = Attribute::<Regen<Health>>::new(Amount::from_bits(i64::MIN));
    let mut a = amount::<Health>(-1);
    assert_eq!(regen(&mut a, &drain, Some(&max)), Err(Overflow));
    assert_eq!(*a.amount(), Amount::from_num(-1));
}

#[test]
fn health_health_regen() {
    let mut player = HealthPoints::new(1);
    let mut dead_player = HealthPoints::new(0);
    let max = MaxHealth(10);
    let rate = HealthRegen(5);

    assert_eq!(player.amount(), 1);
    assert_eq!(dead_player.amount(), 0);

    // A tick in which the regeneration is not due leaves the health alone.
    assert_eq!(player.amount(), 1);

    regen_health(&mut player, &max, &rate);
    regen_health(&mut dead_player, &max, &rate);
    assert_eq!(player.amount(), 6);

    regen_health(&mut player, &max, &rate);
    regen_health(&mut dead_player, &max, &rate);

    assert_eq!(player.amount(), 10);
    assert_eq!(dead_player.amount(), 0);
}

#[test]
fn attribute_health_regen() {
    let mut player = HealthPoints::new(1);
    let mut dead_player = HealthPoints::new(0);

    assert_eq!(player.amount(), 1);
    assert_eq!(dead_player.amount(), 0);

    assert_eq!(player.amount(), 1);

    regen_health(&mut player, &MaxHealth(10), &HealthRegen(5));
    regen_health(&mut dead_player, &MaxHealth(10), &HealthRegen(5));
    assert_eq!(player.amount(), 6);

    regen_health(&mut player, &MaxHealth(10), &HealthRegen(5));
    regen_health(&mut dead_player, &MaxHealth(10), &HealthRegen(5));

    assert_eq!(player.amount(), 10);
    assert_eq!(dead_player.amount(), 0);
}

#[test]
fn health_regen_does_not_overflow() {
    let mut h = HealthPoints::new(u32::MAX - 1);
    regen_health(&mut h, &MaxHealth(u32::MAX), &HealthRegen(u32::MAX));
    assert_eq!(h.amount(), u32::MAX);
    // At or above the maximum nothing is regained, and nothing is taken.
    let mut h = HealthPoints::new(12);
    regen_health(&mut h, &MaxHealth(10), &HealthRegen(5));
    assert_eq!(h.amount(), 12);
    let mut h = HealthPoints::new(10);
    regen_health(&mut h, &MaxHealth(10), &HealthRegen(5));
    assert_eq!(h.amount(), 10);
    let mut h = HealthPoints::new(3);
    regen_health(&mut h, &MaxHealth(10), &HealthRegen(0));
    assert_eq!(h.amount(), 3);
}

#[test]
fn damage_saturates_and_is_recorded_in_order() {
    let mut h = HealthPoints::new(10);
    let mut history = DamageHistory::new();
    assert_eq!(history.len(), 0);
    let a = Entity::from_bits(7);
    let b = Entity::from_bits(8);
    h.damage(&mut history, Damage { from: a, amount: 4 });
    assert_eq!(h.amount(), 6);
    h.damage(&mut history, Damage { from: b, amount: 9 });
    assert_eq!(h.amount(), 0);
    h.damage(&mut history, Damage { from: a, amount: 1 });
    assert_eq!(h.amount(), 0);
    assert_eq!(history.len(), 3);
    let first = history.get(0).unwrap();
    assert_eq!((first.from, first.amount), (a, 4));
    let second = history.get(1).unwrap();
    assert_eq!((second.from, second.amount), (b, 9));
    let third = history.get(2).unwrap();
    assert_eq!((third.from, third.amount), (a, 1));
    assert!(history.get(3).is_none());
    h.set_amount(5);
    assert_eq!(h.amount(), 5);
}

#[test]
fn stages_run_in_a_fixed_order() {
    let stages = SimpleAttributePlugin.schedule();
    assert_eq!(
        stages,
        vec![
            AttributeLabel::MaxResult,
            AttributeLabel::Result,
            AttributeLabel::ClampMax,
            AttributeLabel::ClampMin
        ]
    );
    for (i, a) in stages.iter().enumerate() {
        assert_eq!(a.index() as usize, i);
        for (j, b) in stages.iter().enumerate() {
            assert_eq!(a.runs_before(*b), i < j);
            if i < j {
                assert!(a.phase().index() <= b.phase().index());
            }
        }
    }
    assert_eq!(AttributeLabel::MaxResult.phase(), Phase::Update);
    assert_eq!(AttributeLabel::Result.phase(), Phase::Update);
    assert_eq!(AttributeLabel::ClampMax.phase(), Phase::PostUpdate);
    assert_eq!(AttributeLabel::ClampMin.phase(), Phase::PostUpdate);
    assert_eq!(Phase::PreUpdate.index(), 0);
    assert_eq!(Phase::Update.index(), 1);
    assert_eq!(Phase::PostUpdate.index(), 2);
    assert_eq!(Phase::Last.index(), 3);
}
