use character_controller::events::{
    ControllerEvents, ForceEvent, ImpulseEvent, LookDeltaEvent, LookEvent, PitchEvent,
    TranslationEvent, YawEvent,
};
use character_controller::fixed::{div_trunc, isqrt_u64, mul_div, rem_nonneg, rem_trunc};
use character_controller::vec3::{Vec2, Vec3};

#[test]
fn division_truncates_toward_zero() {
    assert_eq!(div_trunc(7, 2), 3);
    assert_eq!(div_trunc(-7, 2), -3);
    assert_eq!(div_trunc(0, 5), 0);
    assert_eq!(div_trunc(-1, 2), 0);
}

#[test]
fn remainders_follow_the_dividend_sign() {
    assert_eq!(rem_trunc(7, 3), 1);
    assert_eq!(rem_trunc(-7, 3), -1);
    assert_eq!(rem_nonneg(7, 3), 1);
    assert_eq!(rem_nonneg(0, 3), 0);
}

#[test]
fn product_quotients_are_exact() {
    // 5.0 * 80.0 in sub-units, scaled back down: 400.0.
    assert_eq!(mul_div(5_000_000, 80_000_000, 1_000_000), 400_000_000);
    assert_eq!(mul_div(-5_000_000, 80_000_000, 1_000_000), -400_000_000);
    // Truncation toward zero on both signs.
    assert_eq!(mul_div(7, 1, 2), 3);
    assert_eq!(mul_div(-7, 1, 2), -3);
}

#[test]
fn integer_square_roots() {
    assert_eq!(isqrt_u64(0), 0);
    assert_eq!(isqrt_u64(1), 1);
    assert_eq!(isqrt_u64(24), 4);
    assert_eq!(isqrt_u64(25), 5);
    assert_eq!(isqrt_u64(1_000_000_000_000), 1_000_000);
}

#[test]
fn rescaling_a_three_four_five_vector() {
    let v = Vec3 { x: 3_000_000, y: 0, z: 4_000_000 };
    // Magnitude five units; rescaled to two units.
    assert_eq!(
        v.rescaled(2_000_000),
        Vec3 { x: 1_200_000, y: 0, z: 1_600_000 }
    );
}

#[test]
fn significance_threshold_is_strict() {
    assert!(!Vec3 { x: 1_000, y: 0, z: 0 }.is_significant());
    assert!(Vec3 { x: 1_001, y: 0, z: 0 }.is_significant());
    assert!(!Vec2 { x: 0, y: 1_000 }.is_significant());
    assert!(Vec2 { x: 0, y: 1_001 }.is_significant());
}

#[test]
fn vector_sums_and_differences() {
    let a = Vec3 { x: 1, y: -2, z: 3 };
    let b = Vec3 { x: 10, y: 20, z: -30 };
    assert_eq!(a.plus(b), Vec3 { x: 11, y: 18, z: -27 });
    assert_eq!(a.minus(b), Vec3 { x: -9, y: -22, z: 33 });
    assert_eq!(b.horizontal(), Vec3 { x: 10, y: 0, z: -30 });
}

#[test]
fn event_values_round_trip() {
    let v = Vec3 { x: 1, y: 2, z: 3 };
    assert_eq!(TranslationEvent::new(&v).value(), v);
    assert_eq!(ImpulseEvent::new(&v).value(), v);
    assert_eq!(ForceEvent::new(&v).value(), v);
    assert_eq!(LookEvent::new(&v).value(), v);
    assert_eq!(LookDeltaEvent::new(&v).value(), v);
    assert_eq!(YawEvent::new(7).value(), 7);
    assert_eq!(PitchEvent::new(-7).value(), -7);
}

#[test]
fn channel_set_starts_empty_and_clears() {
    let mut ev = ControllerEvents::default();
    assert!(ev.translations.is_none() && ev.impulses.is_none() && ev.forces.is_none());
    assert!(ev.yaws.is_none() && ev.pitches.is_none());
    assert!(ev.looks.is_none() && ev.look_deltas.is_none());
    ev.yaws = Some(YawEvent::new(4));
    ev.clear();
    assert!(ev.yaws.is_none());
}
