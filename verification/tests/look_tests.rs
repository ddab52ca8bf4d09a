use character_controller::events::ControllerEvents;
use character_controller::look::{
    accumulate_mouse, input_to_look, LookDirection, MouseSettings, FULL_TURN, PITCH_BOUND,
};
use character_controller::vec3::{Vec2, Vec3};

fn fresh() -> (MouseSettings, ControllerEvents) {
    (MouseSettings::default(), ControllerEvents::new())
}

#[test]
fn mouse_settings_default_values() {
    let s = MouseSettings::default();
    assert_eq!(s.sensitivity, 10_000); // 0.01 of a unit
    assert_eq!(s.yaw_pitch_roll, Vec3 { x: 0, y: 0, z: 0 });
}

#[test]
fn pitch_clamps_on_huge_positive_delta() {
    let (mut s, mut ev) = fresh();
    // A pathologically large single-frame delta (a million units down).
    input_to_look(&mut s, Vec2 { x: 0, y: 1_000_000_000_000 }, &mut ev);
    assert_eq!(s.yaw_pitch_roll.y, PITCH_BOUND);
}

#[test]
fn pitch_clamps_on_huge_negative_delta() {
    let (mut s, mut ev) = fresh();
    input_to_look(&mut s, Vec2 { x: 0, y: -1_000_000_000_000 }, &mut ev);
    assert_eq!(s.yaw_pitch_roll.y, -PITCH_BOUND);
}

#[test]
fn pitch_stays_clamped_over_many_updates() {
    let (mut s, mut ev) = fresh();
    let deltas: [(i64, i64); 6] = [
        (0, 900_000_000_000),
        (5_000_000, -1_000_000_000_000),
        (0, 700_000_000_000),
        (-3_000_000, 700_000_000_000),
        (0, -50_000_000),
        (1_000_000, 999_999_999_999),
    ];
    for (dx, dy) in deltas {
        input_to_look(&mut s, Vec2 { x: dx, y: dy }, &mut ev);
        assert!(s.yaw_pitch_roll.y <= PITCH_BOUND);
        assert!(s.yaw_pitch_roll.y >= -PITCH_BOUND);
    }
}

#[test]
fn negligible_delta_emits_nothing_and_changes_nothing() {
    let (mut s, mut ev) = fresh();
    // Scaled magnitude: 50_000 * 0.01 = 500 sub-radians; squared 250_000,
    // below the 1_000_000 threshold.
    input_to_look(&mut s, Vec2 { x: 50_000, y: 30_000 }, &mut ev);
    assert_eq!(s.yaw_pitch_roll, Vec3 { x: 0, y: 0, z: 0 });
    assert!(ev.look_deltas.is_none());
    assert!(ev.looks.is_none());
    assert!(ev.pitches.is_none());
    assert!(ev.yaws.is_none());
    assert!(ev.translations.is_none());
    assert!(ev.impulses.is_none());
    assert!(ev.forces.is_none());
}

#[test]
fn threshold_is_strict() {
    // Exactly at the threshold: scaled delta (1000, 0), squared magnitude
    // 1_000_000 — not strictly above, so still a no-op.
    let (mut s, mut ev) = fresh();
    input_to_look(&mut s, Vec2 { x: 100_000, y: 0 }, &mut ev);
    assert!(ev.yaws.is_none());
    // One sub-unit more crosses it.
    input_to_look(&mut s, Vec2 { x: 100_100, y: 0 }, &mut ev);
    assert!(ev.yaws.is_some());
}

#[test]
fn significant_delta_emits_all_four_look_events() {
    let (mut s, mut ev) = fresh();
    // Scaled delta: (10_000, 5_000) sub-radians.
    input_to_look(&mut s, Vec2 { x: 1_000_000, y: 500_000 }, &mut ev);
    assert_eq!(s.yaw_pitch_roll, Vec3 { x: 10_000, y: 5_000, z: 0 });
    let d = ev.look_deltas.expect("look delta").value();
    assert_eq!(d, Vec3 { x: 10_000, y: 5_000, z: 0 });
    let l = ev.looks.expect("look").value();
    assert_eq!(l, Vec3 { x: 10_000, y: 5_000, z: 0 });
    assert_eq!(ev.pitches.expect("pitch").value(), 5_000);
    assert_eq!(ev.yaws.expect("yaw").value(), 10_000);
}

#[test]
fn yaw_accumulates_and_wraps_on_a_full_turn() {
    let (mut s, mut ev) = fresh();
    // Scaled delta of 4_000_000 sub-radians per update.
    input_to_look(&mut s, Vec2 { x: 400_000_000, y: 0 }, &mut ev);
    assert_eq!(s.yaw_pitch_roll.x, 4_000_000);
    input_to_look(&mut s, Vec2 { x: 400_000_000, y: 0 }, &mut ev);
    // 8_000_000 wraps past a full turn of 6_283_185.
    assert_eq!(s.yaw_pitch_roll.x, 8_000_000 - FULL_TURN);
}

#[test]
fn roll_never_changes() {
    let (mut s, mut ev) = fresh();
    for _ in 0..5 {
        input_to_look(&mut s, Vec2 { x: 700_000_000, y: -900_000_000 }, &mut ev);
        assert_eq!(s.yaw_pitch_roll.z, 0);
    }
}

#[test]
fn mouse_accumulation_negates_the_sum() {
    let deltas = vec![
        Vec2 { x: 10, y: -4 },
        Vec2 { x: -3, y: 20 },
        Vec2 { x: 100, y: 0 },
    ];
    let net = accumulate_mouse(&deltas);
    assert_eq!(net, Vec2 { x: -107, y: -16 });
}

#[test]
fn mouse_accumulation_of_nothing_is_zero() {
    let deltas: Vec<Vec2> = vec![];
    assert_eq!(accumulate_mouse(&deltas), Vec2 { x: 0, y: 0 });
}

#[test]
fn look_direction_default_and_check() {
    let d = LookDirection::default();
    assert_eq!(d.forward, Vec3 { x: 0, y: 0, z: 1_000_000 });
    assert_eq!(d.right, Vec3 { x: -1_000_000, y: 0, z: 0 });
    assert_eq!(d.up, Vec3 { x: 0, y: 1_000_000, z: 0 });
    assert!(d.check());
    // A basis looking straight up cannot steer grounded movement.
    let degenerate = LookDirection {
        forward: Vec3 { x: 0, y: 1_000_000, z: 0 },
        right: Vec3 { x: 1_000_000, y: 0, z: 0 },
        up: Vec3 { x: 0, y: 0, z: -1_000_000 },
    };
    assert!(!degenerate.check());
}
