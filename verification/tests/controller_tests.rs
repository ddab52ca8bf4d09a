use character_controller::controller::{
    controller_to_kinematic, input_to_events, CharacterController, ControllerError, InputState,
    Mass,
};
use character_controller::events::ControllerEvents;
use character_controller::input_map::{InputMap, KeyCode};
use character_controller::look::LookDirection;
use character_controller::vec3::Vec3;

/// The world-identity basis of the scenario: forward into the screen.
fn identity_basis() -> LookDirection {
    LookDirection {
        forward: Vec3 { x: 0, y: 0, z: -1_000_000 },
        right: Vec3 { x: 1_000_000, y: 0, z: 0 },
        up: Vec3 { x: 0, y: 1_000_000, z: 0 },
    }
}

fn no_keys() -> Vec<KeyCode> {
    vec![]
}

#[test]
fn controller_default_values() {
    let c = CharacterController::default();
    assert_eq!(c.walk_speed, 5_000_000);
    assert_eq!(c.run_speed, 8_000_000);
    assert_eq!(c.jump_speed, 6_000_000);
    assert_eq!(c.dt, 10_000); // one sixtieth of a second in ticks
    assert_eq!(c.sim_to_render, 0);
    assert!(!c.fly);
    assert!(!c.jumping);
    assert_eq!(c.velocity, Vec3 { x: 0, y: 0, z: 0 });
}

#[test]
fn input_map_default_bindings() {
    let m = InputMap::default();
    assert_eq!(m.key_forward, KeyCode::W);
    assert_eq!(m.key_backward, KeyCode::S);
    assert_eq!(m.key_left, KeyCode::A);
    assert_eq!(m.key_right, KeyCode::D);
    assert_eq!(m.key_jump, KeyCode::Space);
    assert_eq!(m.key_run, KeyCode::LShift);
    assert_eq!(m.key_crouch, KeyCode::LControl);
    assert!(!m.invert_y);
    assert_eq!(m.key_fly, KeyCode::F);
    assert_eq!(m.key_fly_up, KeyCode::E);
    assert_eq!(m.key_fly_down, KeyCode::Q);
}

#[test]
fn walk_forward_scenario_exact_intents() {
    // walk 5.0, run 8.0, forward held, run not held, identity basis,
    // mass 80.0, previous velocity zero, timestep 1/60 s.
    let mut c = CharacterController::default();
    let mass = Mass::new(80_000_000);
    let look = identity_basis();
    let mut ev = ControllerEvents::new();
    let pressed = vec![KeyCode::W];
    let r = input_to_events(&mut c, 10_000, &pressed, &no_keys(), &mass, Some(&look), &mut ev);
    assert_eq!(r, Ok(true));
    // Desired horizontal velocity (0, 0, -5.0).
    assert_eq!(c.velocity, Vec3 { x: 0, y: 0, z: -5_000_000 });
    // Impulse (0, 0, -400.0) = velocity change times mass.
    assert_eq!(
        ev.impulses.expect("impulse").value(),
        Vec3 { x: 0, y: 0, z: -400_000_000 }
    );
    // Force (0, 0, -24000.0) = impulse over one sixtieth of a second.
    assert_eq!(
        ev.forces.expect("force").value(),
        Vec3 { x: 0, y: 0, z: -24_000_000_000 }
    );
    // Translation: one sixtieth of a second at -5.0 units per second.
    assert_eq!(
        ev.translations.expect("translation").value(),
        Vec3 { x: 0, y: 0, z: -83_333 }
    );
}

#[test]
fn run_key_selects_run_speed() {
    let mut c = CharacterController::default();
    let mass = Mass::new(80_000_000);
    let look = identity_basis();
    let mut ev = ControllerEvents::new();
    let pressed = vec![KeyCode::W, KeyCode::LShift];
    let r = input_to_events(&mut c, 10_000, &pressed, &no_keys(), &mass, Some(&look), &mut ev);
    assert_eq!(r, Ok(true));
    assert_eq!(c.velocity, Vec3 { x: 0, y: 0, z: -8_000_000 });
}

#[test]
fn fixed_step_runs_exactly_three_times_over_five_irregular_frames() {
    // Frame times sum to exactly three timesteps; no frame exceeds one
    // timestep. The step logic must run exactly three times.
    let mut c = CharacterController::default();
    let frames: [i64; 5] = [9_000, 9_000, 9_000, 1_500, 1_500];
    assert_eq!(frames.iter().sum::<i64>(), 3 * c.dt);
    let mut steps = 0;
    for t in frames {
        if c.accumulate_time(t) {
            steps += 1;
        }
    }
    assert_eq!(steps, 3);
    assert_eq!(c.sim_to_render, 0);
}

#[test]
fn accumulator_keeps_the_remainder() {
    let mut c = CharacterController::default();
    assert!(!c.accumulate_time(9_999));
    assert_eq!(c.sim_to_render, 9_999);
    assert!(c.accumulate_time(2));
    assert_eq!(c.sim_to_render, 1);
}

#[test]
fn one_oversized_frame_drops_excess_steps() {
    // Deliberate design: only one step runs per frame, and the accumulator
    // drains to the remainder, so a frame of three timesteps still yields a
    // single step.
    let mut c = CharacterController::default();
    assert!(c.accumulate_time(30_000));
    assert_eq!(c.sim_to_render, 0);
}

#[test]
fn input_is_sticky_until_a_step_consumes_it() {
    let mut c = CharacterController::default();
    let mass = Mass::new(80_000_000);
    let look = identity_basis();
    let mut ev = ControllerEvents::new();
    let pressed = vec![KeyCode::W];
    // Half a timestep: the key is sampled but no step runs.
    let r = input_to_events(&mut c, 5_000, &pressed, &no_keys(), &mass, Some(&look), &mut ev);
    assert_eq!(r, Ok(false));
    assert!(c.input_state.forward);
    assert_eq!(c.velocity, Vec3 { x: 0, y: 0, z: 0 });
    // The key is no longer held, but the pending flag persists and the
    // step picks it up.
    let r = input_to_events(&mut c, 5_000, &no_keys(), &no_keys(), &mass, Some(&look), &mut ev);
    assert_eq!(r, Ok(true));
    assert_eq!(c.velocity, Vec3 { x: 0, y: 0, z: -5_000_000 });
    // The step consumed the pending input.
    assert!(!c.input_state.forward);
}

#[test]
fn missing_look_direction_fails_the_frame() {
    let mut c = CharacterController::default();
    let mass = Mass::new(80_000_000);
    let mut ev = ControllerEvents::new();
    let r = input_to_events(&mut c, 10_000, &no_keys(), &no_keys(), &mass, None, &mut ev);
    assert_eq!(r, Err(ControllerError::MissingLookDirection));
    // No events were produced for the failed frame.
    assert!(ev.impulses.is_none() && ev.forces.is_none() && ev.translations.is_none());
    // Below a step boundary the association is not needed.
    let r = input_to_events(&mut c, 4_000, &no_keys(), &no_keys(), &mass, None, &mut ev);
    assert_eq!(r, Ok(false));
}

#[test]
fn grounded_vertical_velocity_resets_to_zero() {
    // fly = false, no jump input, not jumping: vertical desired velocity is
    // exactly zero after one step.
    let mut c = CharacterController::default();
    c.velocity = Vec3 { x: 0, y: 2_000_000, z: 0 };
    let mass = Mass::new(80_000_000);
    let look = identity_basis();
    let mut ev = ControllerEvents::new();
    let r = input_to_events(&mut c, 10_000, &no_keys(), &no_keys(), &mass, Some(&look), &mut ev);
    assert_eq!(r, Ok(true));
    assert_eq!(c.velocity.y, 0);
}

#[test]
fn jump_sets_vertical_velocity_to_jump_speed() {
    let mut c = CharacterController::default();
    let mass = Mass::new(80_000_000);
    let look = identity_basis();
    let mut ev = ControllerEvents::new();
    let just = vec![KeyCode::Space];
    let r = input_to_events(&mut c, 10_000, &no_keys(), &just, &mass, Some(&look), &mut ev);
    assert_eq!(r, Ok(true));
    assert!(c.jumping);
    assert_eq!(c.velocity.y, 6_000_000);
    // Impulse carries the vertical momentum change: 6.0 * 80.0 = 480.0.
    assert_eq!(ev.impulses.expect("impulse").value().y, 480_000_000);
}

#[test]
fn gravity_integrates_exactly_while_airborne() {
    // At sixty steps per second gravity takes exactly
    // 9.81 / 60 = 0.1635 units per second off the vertical velocity.
    let mut c = CharacterController::default();
    c.jumping = true;
    c.velocity = Vec3 { x: 0, y: 6_000_000, z: 0 };
    let mass = Mass::new(80_000_000);
    let look = identity_basis();
    for k in 1..=5 {
        let mut ev = ControllerEvents::new();
        let r =
            input_to_events(&mut c, 10_000, &no_keys(), &no_keys(), &mass, Some(&look), &mut ev);
        assert_eq!(r, Ok(true));
        assert_eq!(c.velocity.y, 6_000_000 - k * 163_500);
    }
}

#[test]
fn no_input_halves_horizontal_velocity_each_step() {
    // Starting from velocity (3, 0, 3), the horizontal velocity halves on
    // every step and converges toward zero.
    let mut c = CharacterController::default();
    c.velocity = Vec3 { x: 3_000_000, y: 0, z: 3_000_000 };
    let mass = Mass::new(80_000_000);
    let look = identity_basis();
    let mut expect: i64 = 3_000_000;
    for _ in 0..10 {
        let mut ev = ControllerEvents::new();
        let r =
            input_to_events(&mut c, 10_000, &no_keys(), &no_keys(), &mass, Some(&look), &mut ev);
        assert_eq!(r, Ok(true));
        expect /= 2;
        assert_eq!(c.velocity, Vec3 { x: expect, y: 0, z: expect });
    }
}

#[test]
fn translation_events_stop_once_motion_is_negligible() {
    let mut c = CharacterController::default();
    c.velocity = Vec3 { x: 3_000_000, y: 0, z: 3_000_000 };
    let mass = Mass::new(80_000_000);
    let look = identity_basis();
    let mut stopped = false;
    for _ in 0..12 {
        let mut ev = ControllerEvents::new();
        input_to_events(&mut c, 10_000, &no_keys(), &no_keys(), &mass, Some(&look), &mut ev)
            .unwrap();
        let now = ev.translations.is_some();
        // Once translations stop they never resume while decaying.
        if stopped {
            assert!(!now);
        }
        if !now {
            stopped = true;
        }
    }
    // After twelve halvings the motion is far below the threshold.
    assert!(stopped);
}

#[test]
fn fly_toggle_and_vertical_flight() {
    let mut c = CharacterController::default();
    let mass = Mass::new(80_000_000);
    let look = identity_basis();
    let mut ev = ControllerEvents::new();
    // Toggle fly on (freshly pressed F) and hold fly-up (E).
    let just = vec![KeyCode::F];
    let pressed = vec![KeyCode::E];
    let r = input_to_events(&mut c, 10_000, &pressed, &just, &mass, Some(&look), &mut ev);
    assert_eq!(r, Ok(true));
    assert!(c.fly);
    // Flying straight up at walk speed; gravity does not apply.
    assert_eq!(c.velocity, Vec3 { x: 0, y: 5_000_000, z: 0 });
    // Toggling again turns fly off.
    let mut ev = ControllerEvents::new();
    let r = input_to_events(&mut c, 10_000, &no_keys(), &just, &mass, Some(&look), &mut ev);
    assert_eq!(r, Ok(true));
    assert!(!c.fly);
}

#[test]
fn flying_without_input_kills_vertical_motion() {
    // The deliberate asymmetry: with no input while flying, the horizontal
    // velocity is halved but the vertical velocity is zeroed outright.
    let mut c = CharacterController::default();
    c.fly = true;
    c.velocity = Vec3 { x: 2_000_000, y: 4_000_000, z: 0 };
    let mass = Mass::new(80_000_000);
    let look = identity_basis();
    let mut ev = ControllerEvents::new();
    let r = input_to_events(&mut c, 10_000, &no_keys(), &no_keys(), &mass, Some(&look), &mut ev);
    assert_eq!(r, Ok(true));
    assert_eq!(c.velocity, Vec3 { x: 1_000_000, y: 0, z: 0 });
    // The impulse asked the backend to cancel the vertical momentum.
    assert_eq!(
        ev.impulses.expect("impulse").value(),
        Vec3 { x: -80_000_000, y: -320_000_000, z: 0 }
    );
}

#[test]
fn kinematic_consumer_applies_translation_and_ground_contact() {
    let mut c = CharacterController::default();
    c.jumping = true;
    let mut ev = ControllerEvents::new();
    let mut position = Vec3 { x: 1_000_000, y: 50_000, z: 0 };
    // No translation this frame: position holds, still airborne.
    controller_to_kinematic(&ev, &mut position, &mut c);
    assert_eq!(position, Vec3 { x: 1_000_000, y: 50_000, z: 0 });
    assert!(c.jumping);
    // A downward translation through the ground: clamped to the ground,
    // and the body stops counting as airborne.
    ev.translations = Some(character_controller::events::TranslationEvent::new(&Vec3 {
        x: 10_000,
        y: -80_000,
        z: 0,
    }));
    controller_to_kinematic(&ev, &mut position, &mut c);
    assert_eq!(position, Vec3 { x: 1_010_000, y: 0, z: 0 });
    assert!(!c.jumping);
}

#[test]
fn input_state_default_is_clear() {
    let i = InputState::default();
    assert!(!i.forward && !i.backward && !i.left && !i.right);
    assert!(!i.run && !i.jump && !i.up && !i.down);
}

#[test]
fn mass_new_stores_the_mass() {
    let m = Mass::new(80_000_000);
    assert_eq!(m.mass, 80_000_000);
}

#[test]
fn strafe_keys_follow_the_right_vector() {
    let mut c = CharacterController::default();
    let mass = Mass::new(80_000_000);
    let look = identity_basis();
    let mut ev = ControllerEvents::new();
    let pressed = vec![KeyCode::D];
    input_to_events(&mut c, 10_000, &pressed, &no_keys(), &mass, Some(&look), &mut ev).unwrap();
    assert_eq!(c.velocity, Vec3 { x: 5_000_000, y: 0, z: 0 });
    let mut ev = ControllerEvents::new();
    let pressed = vec![KeyCode::A];
    input_to_events(&mut c, 10_000, &pressed, &no_keys(), &mass, Some(&look), &mut ev).unwrap();
    assert_eq!(c.velocity.x, -5_000_000);
}

#[test]
fn opposed_keys_cancel_and_damp_instead() {
    let mut c = CharacterController::default();
    c.velocity = Vec3 { x: 1_000_000, y: 0, z: 1_000_000 };
    let mass = Mass::new(80_000_000);
    let look = identity_basis();
    let mut ev = ControllerEvents::new();
    let pressed = vec![KeyCode::W, KeyCode::S];
    input_to_events(&mut c, 10_000, &pressed, &no_keys(), &mass, Some(&look), &mut ev).unwrap();
    // Forward and backward cancel: treated as no input, so damping applies.
    assert_eq!(c.velocity, Vec3 { x: 500_000, y: 0, z: 500_000 });
}
