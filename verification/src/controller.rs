//! The motion-intent deriver.
//!
//! Each render frame, [`input_to_events`] accumulates the elapsed time and
//! ORs the sampled key state into the pending input, so a key pressed for
//! part of a fixed step is not lost. Once a whole fixed timestep has
//! accumulated, one simulation step runs: it derives a desired velocity from
//! the camera basis and the pending input, applies walk/run/jump/fly
//! semantics, integrates gravity for the kinematic fallback, and broadcasts
//! the intent as an impulse (mass-scaled), a force (the impulse per
//! timestep) and a translation (the velocity over one timestep). At most one
//! step runs per frame; the remainder of the accumulated time is carried
//! forward and any excess beyond one step is dropped to bound catch-up work.

use vstd::prelude::*;

verus! {

use crate::events::{ControllerEvents, ForceEvent, ImpulseEvent, TranslationEvent};
use crate::fixed::{
    div_trunc, lemma_mul_div_bound, lemma_tdiv_shrinks, mul_div, rem_nonneg, tdiv, TICKS_PER_SECOND,
    UNIT,
};
use crate::input_map::{contains_key, InputMap, KeyCode};
use crate::look::LookDirection;
use crate::vec3::{Vec3, Vec3i};
use vstd::arithmetic::div_mod::{lemma_mod_sub_multiples_vanish, lemma_small_mod};

/// Gravitational acceleration, in sub-units per second per second.
pub const GRAVITY: i64 = 9_810_000;

/// The largest speed, velocity component or vertical fall rate the
/// controller represents: a thousand units per second, in sub-units.
pub const SPEED_LIMIT: i64 = 1_000_000_000;

/// The largest mass of a controlled body, in sub-units.
pub const MASS_LIMIT: i64 = 1_000_000_000;

/// The longest accepted fixed timestep: ten seconds of ticks.
pub const TIMESTEP_MAX: i64 = 6_000_000;

/// The longest accepted per-frame elapsed time: a thousand seconds of ticks.
pub const FRAME_TICKS_MAX: i64 = 600_000_000;

/// Marks the controlled body entity.
#[derive(Clone, Copy, Debug)]
pub struct BodyTag;

/// Marks the body-yaw pivot entity.
#[derive(Clone, Copy, Debug)]
pub struct YawTag;

/// Marks the head pivot entity (receives pitch).
#[derive(Clone, Copy, Debug)]
pub struct HeadTag;

/// Marks the camera entity.
#[derive(Clone, Copy, Debug)]
pub struct CameraTag;

/// The mass of the controlled body, supplied by the physics backend.
#[derive(Clone, Copy, Debug, PartialEq, Eq, Structural)]
pub struct Mass {
    pub mass: i64,
}

impl Mass {
    /// A representable mass: positive and within range.
    pub open spec fn wf(self) -> bool {
        1 <= self.mass <= MASS_LIMIT
    }

    pub fn new(mass: i64) -> (r: Self)
        requires
            1 <= mass <= MASS_LIMIT,
        ensures
            r.mass == mass,
            r.wf(),
    {
        Self { mass }
    }
}

/// The pending input flags, accumulated across render frames until a fixed
/// step consumes and resets them.
#[derive(Clone, Copy, Debug, PartialEq, Eq, Structural)]
pub struct InputState {
    pub forward: bool,
    pub backward: bool,
    pub left: bool,
    pub right: bool,
    pub run: bool,
    pub jump: bool,
    pub up: bool,
    pub down: bool,
}

impl InputState {
    /// No flag set.
    pub open spec fn is_clear(self) -> bool {
        &&& !self.forward
        &&& !self.backward
        &&& !self.left
        &&& !self.right
        &&& !self.run
        &&& !self.jump
        &&& !self.up
        &&& !self.down
    }

    /// The state with no flag set.
    pub fn clear() -> (r: Self)
        ensures
            r.is_clear(),
    {
        Self {
            forward: false,
            backward: false,
            left: false,
            right: false,
            run: false,
            jump: false,
            up: false,
            down: false,
        }
    }
}

impl Default for InputState {
    /// No flag set.
    fn default() -> (r: Self)
        ensures
            r.is_clear(),
    {
        Self::clear()
    }
}

/// Why a frame's update could not run.
#[derive(Clone, Copy, Debug, PartialEq, Eq, Structural)]
pub enum ControllerError {
    /// The controlled body has no resolvable look direction; a
    /// configuration fault, fatal to this character's update.
    MissingLookDirection,
}

/// The per-character movement state.
///
/// `velocity` is the authoritative last-known linear velocity of the body:
/// refreshed from the physics backend each frame where one exists, and
/// integrated here only under the kinematic fallback. `sim_to_render` is the
/// accumulated not-yet-simulated time, always less than one timestep `dt`.
#[derive(Clone, Copy, Debug, PartialEq, Eq, Structural)]
pub struct CharacterController {
    pub input_map: InputMap,
    pub fly: bool,
    pub walk_speed: i64,
    pub run_speed: i64,
    pub jump_speed: i64,
    pub velocity: Vec3,
    pub jumping: bool,
    pub dt: i64,
    pub sim_to_render: i64,
    pub input_state: InputState,
}

impl CharacterController {
    /// The controller invariant: speeds and velocity in range, a positive
    /// timestep, and less than one whole timestep accumulated.
    pub open spec fn wf(self) -> bool {
        &&& 0 <= self.walk_speed <= SPEED_LIMIT
        &&& 0 <= self.run_speed <= SPEED_LIMIT
        &&& 0 <= self.jump_speed <= SPEED_LIMIT
        &&& self.velocity@.in_range(SPEED_LIMIT as int)
        &&& 1 <= self.dt <= TIMESTEP_MAX
        &&& 0 <= self.sim_to_render < self.dt
    }
}

impl Default for CharacterController {
    /// Walk five, run eight and jump six units per second, simulated at
    /// sixty steps per second.
    fn default() -> (r: Self)
        ensures
            r.input_map == InputMap::default_spec(),
            r.fly == false,
            r.walk_speed == 5_000_000,
            r.run_speed == 8_000_000,
            r.jump_speed == 6_000_000,
            r.velocity@.x == 0 && r.velocity@.y == 0 && r.velocity@.z == 0,
            r.jumping == false,
            r.dt == 10_000,
            r.sim_to_render == 0,
            r.input_state.is_clear(),
            r.wf(),
    {
        Self {
            input_map: InputMap::default(),
            fly: false,
            walk_speed: 5_000_000,
            run_speed: 8_000_000,
            jump_speed: 6_000_000,
            velocity: Vec3 { x: 0, y: 0, z: 0 },
            jumping: false,
            dt: 10_000,  // one sixtieth of a second, in ticks
            sim_to_render: 0,
            input_state: InputState {
                forward: false,
                backward: false,
                left: false,
                right: false,
                run: false,
                jump: false,
                up: false,
                down: false,
            },
        }
    }
}

/// A pending flag after one frame's sampling: sticky-until-consumed.
pub open spec fn flag_after_sample(flag: bool, keys: Seq<KeyCode>, key: KeyCode) -> bool {
    flag || keys.contains(key)
}

/// The pending input after sampling one frame's key state: held keys feed
/// the movement flags, freshly pressed keys feed jump.
pub open spec fn input_after_sample(
    i: InputState,
    map: InputMap,
    pressed: Seq<KeyCode>,
    just_pressed: Seq<KeyCode>,
) -> InputState {
    InputState {
        forward: flag_after_sample(i.forward, pressed, map.key_forward),
        backward: flag_after_sample(i.backward, pressed, map.key_backward),
        left: flag_after_sample(i.left, pressed, map.key_left),
        right: flag_after_sample(i.right, pressed, map.key_right),
        run: flag_after_sample(i.run, pressed, map.key_run),
        jump: flag_after_sample(i.jump, just_pressed, map.key_jump),
        up: flag_after_sample(i.up, pressed, map.key_fly_up),
        down: flag_after_sample(i.down, pressed, map.key_fly_down),
    }
}

/// Fly mode after one frame's sampling: a fresh press of the fly key
/// toggles it.
pub open spec fn fly_after_sample(fly: bool, map: InputMap, just_pressed: Seq<KeyCode>) -> bool {
    if just_pressed.contains(map.key_fly) {
        !fly
    } else {
        fly
    }
}

/// Whether the accumulated time reaches a step boundary this frame.
pub open spec fn reaches_step(sim: int, frame: int, dt: int) -> bool {
    sim + frame >= dt
}

/// The accumulated time carried into the next frame: the remainder after
/// draining whole timesteps, or the plain sum if no boundary was reached.
pub open spec fn sim_after_frame(sim: int, frame: int, dt: int) -> int
    recommends
        dt >= 1,
{
    if reaches_step(sim, frame, dt) {
        (sim + frame) % dt
    } else {
        sim + frame
    }
}

impl CharacterController {
    /// Sample one frame's key state: toggle fly on a fresh press of the fly
    /// key and OR each bound key into the pending input.
    pub fn sample_input(&mut self, pressed: &Vec<KeyCode>, just_pressed: &Vec<KeyCode>)
        ensures
            final(self).input_state == input_after_sample(
                old(self).input_state,
                old(self).input_map,
                pressed@,
                just_pressed@,
            ),
            final(self).fly == fly_after_sample(old(self).fly, old(self).input_map, just_pressed@),
            final(self).input_map == old(self).input_map,
            final(self).walk_speed == old(self).walk_speed,
            final(self).run_speed == old(self).run_speed,
            final(self).jump_speed == old(self).jump_speed,
            final(self).velocity == old(self).velocity,
            final(self).jumping == old(self).jumping,
            final(self).dt == old(self).dt,
            final(self).sim_to_render == old(self).sim_to_render,
    {
        if contains_key(just_pressed, self.input_map.key_fly) {
            self.fly = !self.fly;
        }
        let held_forward = contains_key(pressed, self.input_map.key_forward);
        let held_backward = contains_key(pressed, self.input_map.key_backward);
        let held_right = contains_key(pressed, self.input_map.key_right);
        let held_left = contains_key(pressed, self.input_map.key_left);
        let held_run = contains_key(pressed, self.input_map.key_run);
        let fresh_jump = contains_key(just_pressed, self.input_map.key_jump);
        let held_up = contains_key(pressed, self.input_map.key_fly_up);
        let held_down = contains_key(pressed, self.input_map.key_fly_down);
        self.input_state = InputState {
            forward: self.input_state.forward || held_forward,
            backward: self.input_state.backward || held_backward,
            left: self.input_state.left || held_left,
            right: self.input_state.right || held_right,
            run: self.input_state.run || held_run,
            jump: self.input_state.jump || fresh_jump,
            up: self.input_state.up || held_up,
            down: self.input_state.down || held_down,
        };
    }

    /// Add one frame's elapsed time to the accumulator. Returns whether a
    /// step boundary was reached; if so, the remainder past whole timesteps
    /// is retained and the rest is drained.
    pub fn accumulate_time(&mut self, frame_ticks: i64) -> (stepped: bool)
        requires
            old(self).wf(),
            0 <= frame_ticks <= FRAME_TICKS_MAX,
        ensures
            final(self).wf(),
            stepped == reaches_step(
                old(self).sim_to_render as int,
                frame_ticks as int,
                old(self).dt as int,
            ),
            final(self).sim_to_render as int == sim_after_frame(
                old(self).sim_to_render as int,
                frame_ticks as int,
                old(self).dt as int,
            ),
            final(self).input_map == old(self).input_map,
            final(self).fly == old(self).fly,
            final(self).walk_speed == old(self).walk_speed,
            final(self).run_speed == old(self).run_speed,
            final(self).jump_speed == old(self).jump_speed,
            final(self).velocity == old(self).velocity,
            final(self).jumping == old(self).jumping,
            final(self).dt == old(self).dt,
            final(self).input_state == old(self).input_state,
    {
        let total: i64 = self.sim_to_render + frame_ticks;
        if total < self.dt {
            self.sim_to_render = total;
            false
        } else {
            self.sim_to_render = rem_nonneg(total, self.dt);
            true
        }
    }
}

/// The movement-forward basis vector: the full look forward when flying,
/// otherwise the look forward projected onto the horizontal plane and
/// renormalized to unit length, so ground speed does not vary with pitch.
pub open spec fn movement_forward(fly: bool, look: LookDirection) -> Vec3i {
    if fly {
        look.forward@
    } else {
        look.forward@.horizontal().rescaled(UNIT as int)
    }
}

/// The movement-right basis vector, treated like [`movement_forward`].
pub open spec fn movement_right(fly: bool, look: LookDirection) -> Vec3i {
    if fly {
        look.right@
    } else {
        look.right@.horizontal().rescaled(UNIT as int)
    }
}

/// The movement-up basis vector: the full look up when flying, otherwise
/// the world vertical.
pub open spec fn movement_up(fly: bool, look: LookDirection) -> Vec3i {
    if fly {
        look.up@
    } else {
        Vec3i { x: 0, y: UNIT as int, z: 0 }
    }
}

/// One component of the summed movement direction: each active flag adds or
/// subtracts the matching basis component.
pub open spec fn dir_component(i: InputState, f: int, r: int, u: int) -> int {
    (if i.forward {
        f
    } else {
        0
    }) - (if i.backward {
        f
    } else {
        0
    }) + (if i.right {
        r
    } else {
        0
    }) - (if i.left {
        r
    } else {
        0
    }) + (if i.up {
        u
    } else {
        0
    }) - (if i.down {
        u
    } else {
        0
    })
}

/// The summed movement direction for the pending input over a basis.
pub open spec fn desired_direction(i: InputState, f: Vec3i, r: Vec3i, u: Vec3i) -> Vec3i {
    Vec3i {
        x: dir_component(i, f.x, r.x, u.x),
        y: dir_component(i, f.y, r.y, u.y),
        z: dir_component(i, f.z, r.z, u.z),
    }
}

/// The desired velocity before jump handling: a significant direction is
/// rescaled to the selected speed; otherwise the horizontal part of the
/// current velocity is halved (exponential-style deceleration) and the
/// vertical part left for jump handling.
pub open spec fn desired_velocity_raw(dir: Vec3i, speed: int, velocity: Vec3i) -> Vec3i {
    if dir.is_significant() {
        dir.rescaled(speed)
    } else {
        Vec3i { x: tdiv(velocity.x, 2), y: 0, z: tdiv(velocity.z, 2) }
    }
}

/// Jump handling (grounded mode only): a requested jump sets the vertical
/// desired velocity to the jump speed; otherwise it is zero. Fly mode keeps
/// the summed vertical intent unchanged.
pub open spec fn desired_with_jump(dv: Vec3i, fly: bool, jump: bool, jump_speed: int) -> Vec3i {
    if fly {
        dv
    } else {
        Vec3i {
            x: dv.x,
            y: if jump {
                jump_speed
            } else {
                0
            },
            z: dv.z,
        }
    }
}

/// Whether the body counts as airborne after this step: a grounded jump
/// request sets it; only ground contact (outside this controller) clears it.
pub open spec fn jumping_after(jumping: bool, fly: bool, jump: bool) -> bool {
    if !fly && jump {
        true
    } else {
        jumping
    }
}

/// The velocity change this step asks of the body. In grounded mode the
/// current vertical velocity is masked out: vertical momentum is commanded
/// absolutely, not relative to the current fall.
pub open spec fn delta_velocity(desired: Vec3i, velocity: Vec3i, fly: bool) -> Vec3i {
    if fly {
        Vec3i {
            x: desired.x - velocity.x,
            y: desired.y - velocity.y,
            z: desired.z - velocity.z,
        }
    } else {
        Vec3i { x: desired.x - velocity.x, y: desired.y, z: desired.z - velocity.z }
    }
}

/// The impulse: the velocity change scaled by the body's mass.
pub open spec fn scaled_by_mass(dv: Vec3i, mass: int) -> Vec3i {
    Vec3i {
        x: tdiv(dv.x * mass, UNIT as int),
        y: tdiv(dv.y * mass, UNIT as int),
        z: tdiv(dv.z * mass, UNIT as int),
    }
}

/// The force: the impulse spread over one timestep.
pub open spec fn force_of(imp: Vec3i, dt: int) -> Vec3i
    recommends
        dt >= 1,
{
    Vec3i {
        x: tdiv(imp.x * TICKS_PER_SECOND, dt),
        y: tdiv(imp.y * TICKS_PER_SECOND, dt),
        z: tdiv(imp.z * TICKS_PER_SECOND, dt),
    }
}

/// How much gravity slows the vertical velocity over one timestep.
pub open spec fn gravity_step(dt: int) -> int
    recommends
        dt >= 1,
{
    tdiv(GRAVITY as int * dt, TICKS_PER_SECOND as int)
}

/// One timestep of falling, saturating at the representable fall-rate
/// floor.
pub open spec fn fallen_vertical(vy: int, dt: int) -> int
    recommends
        dt >= 1,
{
    if vy - gravity_step(dt) >= -(SPEED_LIMIT as int) {
        vy - gravity_step(dt)
    } else {
        -(SPEED_LIMIT as int)
    }
}

/// The vertical velocity after a whole run of airborne timesteps.
pub open spec fn fallen_after_steps(vy: int, dt: int, k: nat) -> int
    recommends
        dt >= 1,
    decreases k,
{
    if k == 0 {
        vy
    } else {
        fallen_vertical(fallen_after_steps(vy, dt, (k - 1) as nat), dt)
    }
}

/// Law: gravity integrates monotonically. While the body stays airborne and
/// no jump re-triggers, every processed step takes exactly one
/// `gravity_step(dt)` off the vertical velocity, so after `k` steps it has
/// fallen by exactly `k` of them (as long as the fall-rate floor is not
/// reached).
pub proof fn lemma_monotonic_fall(vy: int, dt: int, k: nat)
    requires
        dt >= 1,
        vy - k * gravity_step(dt) >= -(SPEED_LIMIT as int),
    ensures
        fallen_after_steps(vy, dt, k) == vy - k * gravity_step(dt),
    decreases k,
{
    let g = gravity_step(dt);
    assert(0 <= (GRAVITY as int) * dt) by (nonlinear_arith)
        requires
            dt >= 1;
    crate::fixed::lemma_tdiv_shrinks((GRAVITY as int) * dt, TICKS_PER_SECOND as int);
    if k == 0 {
        assert(k * g == 0) by (nonlinear_arith)
            requires
                k == 0;
    } else {
        let j = (k - 1) as nat;
        assert(j * g <= k * g && k * g == j * g + g) by (nonlinear_arith)
            requires
                g >= 0,
                k >= 1,
                j == k - 1;
        lemma_monotonic_fall(vy, dt, j);
        assert(fallen_after_steps(vy, dt, j) == vy - j * g);
        assert(vy - j * g - g >= -(SPEED_LIMIT as int));
        assert(fallen_after_steps(vy, dt, k) == fallen_vertical(vy - j * g, dt));
        assert(fallen_vertical(vy - j * g, dt) == vy - j * g - g);
    }
}

/// The authoritative velocity after the step: horizontal from the desired
/// velocity; vertical integrates gravity while airborne in grounded mode
/// (the kinematic fallback), else follows the desired velocity.
pub open spec fn velocity_after_step(
    desired: Vec3i,
    velocity: Vec3i,
    fly: bool,
    was_jumping: bool,
    dt: int,
) -> Vec3i {
    Vec3i {
        x: desired.x,
        y: if !fly && was_jumping {
            fallen_vertical(velocity.y, dt)
        } else {
            desired.y
        },
        z: desired.z,
    }
}

/// The displacement of one timestep at the stepped velocity.
pub open spec fn translation_of(v: Vec3i, dt: int) -> Vec3i
    recommends
        dt >= 1,
{
    Vec3i {
        x: tdiv(v.x * dt, TICKS_PER_SECOND as int),
        y: tdiv(v.y * dt, TICKS_PER_SECOND as int),
        z: tdiv(v.z * dt, TICKS_PER_SECOND as int),
    }
}

/// Everything one simulation step does, relating the controller and the
/// event channels before (`pre`, `ev0`) and after (`post`, `ev1`). The
/// impulse, force and translation channels are written exactly when the
/// value is significant; the look channels are never touched here.
pub open spec fn step_effects(
    pre: CharacterController,
    mass: Mass,
    look: LookDirection,
    ev0: ControllerEvents,
    post: CharacterController,
    ev1: ControllerEvents,
) -> bool {
    let f = movement_forward(pre.fly, look);
    let r = movement_right(pre.fly, look);
    let u = movement_up(pre.fly, look);
    let dir = desired_direction(pre.input_state, f, r, u);
    let speed: int = if pre.input_state.run {
        pre.run_speed as int
    } else {
        pre.walk_speed as int
    };
    let desired0 = desired_velocity_raw(dir, speed, pre.velocity@);
    let desired = desired_with_jump(desired0, pre.fly, pre.input_state.jump, pre.jump_speed as int);
    let dv = delta_velocity(desired, pre.velocity@, pre.fly);
    let imp = scaled_by_mass(dv, mass.mass as int);
    let force = force_of(imp, pre.dt as int);
    let vel = velocity_after_step(desired, pre.velocity@, pre.fly, pre.jumping, pre.dt as int);
    let tr = translation_of(vel, pre.dt as int);
    &&& post.velocity@ == vel
    &&& post.jumping == jumping_after(pre.jumping, pre.fly, pre.input_state.jump)
    &&& post.input_state.is_clear()
    &&& post.fly == pre.fly
    &&& post.input_map == pre.input_map
    &&& post.walk_speed == pre.walk_speed
    &&& post.run_speed == pre.run_speed
    &&& post.jump_speed == pre.jump_speed
    &&& post.dt == pre.dt
    &&& post.sim_to_render == pre.sim_to_render
    &&& (imp.is_significant() ==> (ev1.impulses matches Some(e) && e.impulse@ == imp))
    &&& (!imp.is_significant() ==> ev1.impulses == ev0.impulses)
    &&& (force.is_significant() ==> (ev1.forces matches Some(e) && e.force@ == force))
    &&& (!force.is_significant() ==> ev1.forces == ev0.forces)
    &&& (tr.is_significant() ==> (ev1.translations matches Some(e) && e.translation@ == tr))
    &&& (!tr.is_significant() ==> ev1.translations == ev0.translations)
    &&& ev1.yaws == ev0.yaws
    &&& ev1.pitches == ev0.pitches
    &&& ev1.looks == ev0.looks
    &&& ev1.look_deltas == ev0.look_deltas
}

/// The movement-forward basis for this step; see [`movement_forward`].
fn basis_forward(fly: bool, look: &LookDirection) -> (r: Vec3)
    requires
        look.wf(),
    ensures
        r@ == movement_forward(fly, *look),
        r@.in_range(2 * UNIT as int),
{
    if fly {
        look.forward
    } else {
        look.forward.horizontal().rescaled(UNIT)
    }
}

/// The movement-right basis for this step; see [`movement_right`].
fn basis_right(fly: bool, look: &LookDirection) -> (r: Vec3)
    requires
        look.wf(),
    ensures
        r@ == movement_right(fly, *look),
        r@.in_range(2 * UNIT as int),
{
    if fly {
        look.right
    } else {
        look.right.horizontal().rescaled(UNIT)
    }
}

/// The movement-up basis for this step; see [`movement_up`].
fn basis_up(fly: bool, look: &LookDirection) -> (r: Vec3)
    requires
        look.wf(),
    ensures
        r@ == movement_up(fly, *look),
        r@.in_range(2 * UNIT as int),
{
    if fly {
        look.up
    } else {
        Vec3 { x: 0, y: UNIT, z: 0 }
    }
}

/// The summed movement direction for the pending input over a basis.
#[verifier::rlimit(30)]
fn direction_sum(i: InputState, forward: Vec3, right: Vec3, up: Vec3) -> (r: Vec3)
    requires
        forward@.in_range(2 * UNIT as int),
        right@.in_range(2 * UNIT as int),
        up@.in_range(2 * UNIT as int),
    ensures
        r@ == desired_direction(i, forward@, right@, up@),
        r@.in_range(12 * UNIT as int),
{
    let dx: i64 = (if i.forward {
        forward.x
    } else {
        0
    }) - (if i.backward {
        forward.x
    } else {
        0
    }) + (if i.right {
        right.x
    } else {
        0
    }) - (if i.left {
        right.x
    } else {
        0
    }) + (if i.up {
        up.x
    } else {
        0
    }) - (if i.down {
        up.x
    } else {
        0
    });
    let dy: i64 = (if i.forward {
        forward.y
    } else {
        0
    }) - (if i.backward {
        forward.y
    } else {
        0
    }) + (if i.right {
        right.y
    } else {
        0
    }) - (if i.left {
        right.y
    } else {
        0
    }) + (if i.up {
        up.y
    } else {
        0
    }) - (if i.down {
        up.y
    } else {
        0
    });
    let dz: i64 = (if i.forward {
        forward.z
    } else {
        0
    }) - (if i.backward {
        forward.z
    } else {
        0
    }) + (if i.right {
        right.z
    } else {
        0
    }) - (if i.left {
        right.z
    } else {
        0
    }) + (if i.up {
        up.z
    } else {
        0
    }) - (if i.down {
        up.z
    } else {
        0
    });
    Vec3 { x: dx, y: dy, z: dz }
}

/// The desired velocity before jump handling; see [`desired_velocity_raw`].
fn desired_before_jump(dir: Vec3, speed: i64, velocity: Vec3) -> (r: Vec3)
    requires
        dir@.in_range(12 * UNIT as int),
        0 <= speed <= SPEED_LIMIT,
        velocity@.in_range(SPEED_LIMIT as int),
    ensures
        r@ == desired_velocity_raw(dir@, speed as int, velocity@),
        r@.in_range(SPEED_LIMIT as int),
{
    if dir.is_significant() {
        dir.rescaled(speed)
    } else {
        Vec3 { x: div_trunc(velocity.x, 2), y: 0, z: div_trunc(velocity.z, 2) }
    }
}

/// The impulse for a velocity change; see [`scaled_by_mass`].
fn impulse_of(dv: Vec3, mass: &Mass) -> (r: Vec3)
    requires
        dv@.in_range(2 * SPEED_LIMIT as int),
        mass.wf(),
    ensures
        r@ == scaled_by_mass(dv@, mass.mass as int),
        r@.in_range(2_000_000_000_000),
{
    proof {
        lemma_mul_div_bound(
            dv@.x,
            mass.mass as int,
            UNIT as int,
            2_000_000_000,
            1_000_000_000,
            2_000_000_000_000,
        );
        lemma_mul_div_bound(
            dv@.y,
            mass.mass as int,
            UNIT as int,
            2_000_000_000,
            1_000_000_000,
            2_000_000_000_000,
        );
        lemma_mul_div_bound(
            dv@.z,
            mass.mass as int,
            UNIT as int,
            2_000_000_000,
            1_000_000_000,
            2_000_000_000_000,
        );
    }
    Vec3 {
        x: mul_div(dv.x, mass.mass, UNIT),
        y: mul_div(dv.y, mass.mass, UNIT),
        z: mul_div(dv.z, mass.mass, UNIT),
    }
}

/// The force carrying an impulse over one timestep; see [`force_of`].
fn force_from_impulse(imp: Vec3, dt: i64) -> (r: Vec3)
    requires
        imp@.in_range(2_000_000_000_000),
        1 <= dt,
    ensures
        r@ == force_of(imp@, dt as int),
        r@.in_range(1_200_000_000_000_000_000),
{
    proof {
        assert(1_200_000_000_000_000_000int <= (dt as int) * 1_200_000_000_000_000_000int)
            by (nonlinear_arith)
            requires
                dt >= 1;
        lemma_mul_div_bound(
            imp@.x,
            TICKS_PER_SECOND as int,
            dt as int,
            2_000_000_000_000,
            600_000,
            1_200_000_000_000_000_000,
        );
        lemma_mul_div_bound(
            imp@.y,
            TICKS_PER_SECOND as int,
            dt as int,
            2_000_000_000_000,
            600_000,
            1_200_000_000_000_000_000,
        );
        lemma_mul_div_bound(
            imp@.z,
            TICKS_PER_SECOND as int,
            dt as int,
            2_000_000_000_000,
            600_000,
            1_200_000_000_000_000_000,
        );
    }
    Vec3 {
        x: mul_div(imp.x, TICKS_PER_SECOND, dt),
        y: mul_div(imp.y, TICKS_PER_SECOND, dt),
        z: mul_div(imp.z, TICKS_PER_SECOND, dt),
    }
}

/// One timestep of falling; see [`fallen_vertical`].
fn fall_vertical(vy: i64, dt: i64) -> (r: i64)
    requires
        -SPEED_LIMIT <= vy <= SPEED_LIMIT,
        1 <= dt <= TIMESTEP_MAX,
    ensures
        r as int == fallen_vertical(vy as int, dt as int),
        -SPEED_LIMIT <= r <= SPEED_LIMIT,
{
    proof {
        assert(0 <= (GRAVITY as int) * (dt as int)) by (nonlinear_arith)
            requires
                dt >= 1;
        lemma_mul_div_bound(
            GRAVITY as int,
            dt as int,
            TICKS_PER_SECOND as int,
            9_810_000,
            6_000_000,
            98_100_000,
        );
        lemma_tdiv_shrinks((GRAVITY as int) * (dt as int), TICKS_PER_SECOND as int);
    }
    let gstep = mul_div(GRAVITY, dt, TICKS_PER_SECOND);
    let fallen = vy - gstep;
    if fallen >= -SPEED_LIMIT {
        fallen
    } else {
        -SPEED_LIMIT
    }
}

/// The displacement of one timestep; see [`translation_of`].
fn translation_from(v: Vec3, dt: i64) -> (r: Vec3)
    requires
        v@.in_range(SPEED_LIMIT as int),
        1 <= dt <= TIMESTEP_MAX,
    ensures
        r@ == translation_of(v@, dt as int),
        r@.in_range(10_000_000_000),
{
    proof {
        lemma_mul_div_bound(
            v@.x,
            dt as int,
            TICKS_PER_SECOND as int,
            1_000_000_000,
            6_000_000,
            10_000_000_000,
        );
        lemma_mul_div_bound(
            v@.y,
            dt as int,
            TICKS_PER_SECOND as int,
            1_000_000_000,
            6_000_000,
            10_000_000_000,
        );
        lemma_mul_div_bound(
            v@.z,
            dt as int,
            TICKS_PER_SECOND as int,
            1_000_000_000,
            6_000_000,
            10_000_000_000,
        );
    }
    Vec3 {
        x: mul_div(v.x, dt, TICKS_PER_SECOND),
        y: mul_div(v.y, dt, TICKS_PER_SECOND),
        z: mul_div(v.z, dt, TICKS_PER_SECOND),
    }
}

impl CharacterController {
    /// One simulation step: derive the desired velocity from the pending
    /// input over the look basis, convert it to impulse, force and
    /// translation intents, update the authoritative velocity (integrating
    /// gravity under the kinematic fallback), and consume the pending
    /// input.
    #[verifier::rlimit(50)]
    pub fn step(&mut self, mass: &Mass, look: &LookDirection, events: &mut ControllerEvents)
        requires
            old(self).wf(),
            mass.wf(),
            look.wf(),
        ensures
            final(self).wf(),
            step_effects(*old(self), *mass, *look, *old(events), *final(self), *final(events)),
            (!old(self).fly && !old(self).input_state.jump && !old(self).jumping)
                ==> final(self).velocity@.y == 0,
            (!old(self).fly && old(self).jumping && !old(self).input_state.jump
                && old(self).velocity@.y - gravity_step(old(self).dt as int) >= -SPEED_LIMIT)
                ==> final(self).velocity@.y == old(self).velocity@.y - gravity_step(
                old(self).dt as int),
    {
        let was_jumping = self.jumping;
        let i = self.input_state;

        let forward = basis_forward(self.fly, look);
        let right = basis_right(self.fly, look);
        let up = basis_up(self.fly, look);
        let dir = direction_sum(i, forward, right, up);

        let speed = if i.run {
            self.run_speed
        } else {
            self.walk_speed
        };
        let desired0 = desired_before_jump(dir, speed, self.velocity);

        // Jump handling, grounded mode only.
        let desired = if self.fly {
            desired0
        } else {
            if i.jump {
                self.jumping = true;
                Vec3 { x: desired0.x, y: self.jump_speed, z: desired0.z }
            } else {
                Vec3 { x: desired0.x, y: 0, z: desired0.z }
            }
        };

        // The impulse: the commanded momentum change for this step.
        let masked = if self.fly {
            self.velocity
        } else {
            self.velocity.horizontal()
        };
        let dv = desired.minus(masked);
        let impulse = impulse_of(dv, mass);
        if impulse.is_significant() {
            events.impulses = Some(ImpulseEvent::new(&impulse));
        }

        // The force: the same intent spread over one timestep.
        let force = force_from_impulse(impulse, self.dt);
        if force.is_significant() {
            events.forces = Some(ForceEvent::new(&force));
        }

        // The authoritative velocity for the next step.
        let new_y: i64 = if !self.fly && was_jumping {
            fall_vertical(self.velocity.y, self.dt)
        } else {
            desired.y
        };
        self.velocity = Vec3 { x: desired.x, y: new_y, z: desired.z };

        // The displacement for pure-kinematic consumers.
        let translation = translation_from(self.velocity, self.dt);
        if translation.is_significant() {
            events.translations = Some(TranslationEvent::new(&translation));
        }

        // The pending input is consumed by the step.
        self.input_state = InputState::clear();
    }
}

/// The sum of a sequence of per-frame elapsed times.
pub open spec fn frame_sum(frames: Seq<int>) -> int
    decreases frames.len(),
{
    if frames.len() == 0 {
        0
    } else {
        frame_sum(frames.drop_last()) + frames.last()
    }
}

/// The accumulator after feeding a sequence of frames, one at a time.
pub open spec fn run_sim(sim: int, dt: int, frames: Seq<int>) -> int
    decreases frames.len(),
{
    if frames.len() == 0 {
        sim
    } else {
        sim_after_frame(run_sim(sim, dt, frames.drop_last()), frames.last(), dt)
    }
}

/// How many of those frames reached a step boundary, i.e. how many
/// simulation steps ran.
pub open spec fn run_steps(sim: int, dt: int, frames: Seq<int>) -> int
    decreases frames.len(),
{
    if frames.len() == 0 {
        0
    } else {
        run_steps(sim, dt, frames.drop_last()) + if reaches_step(
            run_sim(sim, dt, frames.drop_last()),
            frames.last(),
            dt,
        ) {
            1int
        } else {
            0int
        }
    }
}

/// Law: the accumulator conserves time. As long as no single frame exceeds
/// one timestep, every tick fed in is either simulated (`dt` per step) or
/// still waiting in the accumulator — none is dropped.
pub proof fn lemma_time_conservation(sim: int, dt: int, frames: Seq<int>)
    requires
        dt >= 1,
        0 <= sim < dt,
        forall|i: int| 0 <= i < frames.len() ==> 0 <= #[trigger] frames[i] <= dt,
    ensures
        0 <= run_sim(sim, dt, frames) < dt,
        run_sim(sim, dt, frames) + dt * run_steps(sim, dt, frames) == sim + frame_sum(frames),
    decreases frames.len(),
{
    if frames.len() > 0 {
        let init = frames.drop_last();
        let t = frames.last();
        assert(forall|i: int| 0 <= i < init.len() ==> 0 <= #[trigger] init[i] <= dt);
        assert(0 <= t <= dt);
        lemma_time_conservation(sim, dt, init);
        let s = run_sim(sim, dt, init);
        let k = run_steps(sim, dt, init);
        if reaches_step(s, t, dt) {
            let v = s + t;
            assert(dt <= v < 2 * dt);
            lemma_mod_sub_multiples_vanish(v, dt);
            lemma_small_mod((v - dt) as nat, dt as nat);
            assert(v % dt == v - dt);
            assert(run_sim(sim, dt, frames) == v - dt);
            assert(run_steps(sim, dt, frames) == k + 1);
            assert(dt * (k + 1) == dt * k + dt) by (nonlinear_arith);
        } else {
            assert(run_sim(sim, dt, frames) == s + t);
            assert(run_steps(sim, dt, frames) == k);
        }
    }
}

/// Law: exact step count. Starting from an empty accumulator, if the frame
/// times sum to exactly `n` whole timesteps — however irregularly they are
/// spread, as long as no single frame exceeds one timestep — then exactly
/// `n` steps run, and the accumulator ends empty.
pub proof fn lemma_exact_step_count(dt: int, frames: Seq<int>, n: int)
    requires
        dt >= 1,
        n >= 0,
        forall|i: int| 0 <= i < frames.len() ==> 0 <= #[trigger] frames[i] <= dt,
        frame_sum(frames) == n * dt,
    ensures
        run_steps(0, dt, frames) == n,
        run_sim(0, dt, frames) == 0,
{
    lemma_time_conservation(0, dt, frames);
    let s = run_sim(0, dt, frames);
    let k = run_steps(0, dt, frames);
    assert(s + dt * k == n * dt);
    assert(s == 0 && k == n) by (nonlinear_arith)
        requires
            dt >= 1,
            0 <= s < dt,
            s + dt * k == n * dt;
}

/// The controller as it stands right before a step: the frame's keys
/// sampled into the pending input, fly possibly toggled, and the elapsed
/// time folded into the accumulator.
pub open spec fn pre_step_state(
    c: CharacterController,
    pressed: Seq<KeyCode>,
    just_pressed: Seq<KeyCode>,
    frame: int,
) -> CharacterController {
    CharacterController {
        fly: fly_after_sample(c.fly, c.input_map, just_pressed),
        input_state: input_after_sample(c.input_state, c.input_map, pressed, just_pressed),
        sim_to_render: sim_after_frame(c.sim_to_render as int, frame, c.dt as int) as i64,
        ..c
    }
}

/// One render frame of the motion-intent deriver.
///
/// Always: sample the frame's key state into the pending input and add the
/// elapsed time to the accumulator. If no whole timestep has accumulated,
/// stop there and return `Ok(false)`; the pending input persists. If a step
/// boundary was reached but no look direction could be resolved for the
/// body, the frame's update fails with `Err(MissingLookDirection)` — a
/// configuration fault, surfaced rather than worked around. Otherwise run
/// one simulation step and return `Ok(true)`.
pub fn input_to_events(
    controller: &mut CharacterController,
    frame_ticks: i64,
    pressed: &Vec<KeyCode>,
    just_pressed: &Vec<KeyCode>,
    mass: &Mass,
    look: Option<&LookDirection>,
    events: &mut ControllerEvents,
) -> (r: Result<bool, ControllerError>)
    requires
        old(controller).wf(),
        mass.wf(),
        0 <= frame_ticks <= FRAME_TICKS_MAX,
        (look matches Some(l) ==> l.wf()),
    ensures
        final(controller).wf(),
        ({
            let pre = pre_step_state(*old(controller), pressed@, just_pressed@, frame_ticks as int);
            let stepped = reaches_step(
                old(controller).sim_to_render as int,
                frame_ticks as int,
                old(controller).dt as int,
            );
            &&& (r is Err <==> (stepped && look is None))
            &&& (r is Err ==> r == Err::<bool, ControllerError>(
                ControllerError::MissingLookDirection,
            ))
            &&& (r == Ok::<bool, ControllerError>(true) <==> (stepped && look is Some))
            &&& (r == Ok::<bool, ControllerError>(false) <==> !stepped)
            &&& (!stepped ==> ((*final(controller)) == pre && (*final(events)) == *old(events)))
            &&& ((stepped && look is None) ==> ((*final(controller)) == pre && (*final(events))
                == *old(events)))
            &&& ((stepped && look is Some) ==> step_effects(
                pre,
                *mass,
                *(look->0),
                *old(events),
                *final(controller),
                *final(events),
            ))
        }),
{
    controller.sample_input(pressed, just_pressed);
    let stepped = controller.accumulate_time(frame_ticks);
    proof {
        assert((*controller) == pre_step_state(
            *old(controller),
            pressed@,
            just_pressed@,
            frame_ticks as int,
        ));
    }
    if !stepped {
        return Ok(false);
    }
    match look {
        None => Err(ControllerError::MissingLookDirection),
        Some(l) => {
            controller.step(mass, l, events);
            Ok(true)
        },
    }
}

/// The frame's translation intent, or zero where none was emitted.
pub open spec fn translation_or_zero(ev: ControllerEvents) -> Vec3i {
    if ev.translations is Some {
        ev.translations->0.translation@
    } else {
        Vec3i { x: 0, y: 0, z: 0 }
    }
}

/// The pure-kinematic consumer: apply the frame's translation intent to a
/// body position directly, and resolve ground contact at height zero — a
/// body that would sink below the ground is placed on it and stops counting
/// as airborne.
pub fn controller_to_kinematic(
    events: &ControllerEvents,
    position: &mut Vec3,
    controller: &mut CharacterController,
)
    requires
        old(position)@.in_range(100_000_000_000_000_000),
        (events.translations matches Some(e) ==> e.translation@.in_range(10_000_000_000)),
    ensures
        final(position)@.x == old(position)@.x + translation_or_zero(*events).x,
        final(position)@.z == old(position)@.z + translation_or_zero(*events).z,
        ({
            let ny = old(position)@.y + translation_or_zero(*events).y;
            &&& final(position)@.y == if ny < 0 {
                0int
            } else {
                ny
            }
            &&& final(controller).jumping == if ny < 0 {
                false
            } else {
                old(controller).jumping
            }
        }),
        final(controller).input_map == old(controller).input_map,
        final(controller).fly == old(controller).fly,
        final(controller).walk_speed == old(controller).walk_speed,
        final(controller).run_speed == old(controller).run_speed,
        final(controller).jump_speed == old(controller).jump_speed,
        final(controller).velocity == old(controller).velocity,
        final(controller).dt == old(controller).dt,
        final(controller).sim_to_render == old(controller).sim_to_render,
        final(controller).input_state == old(controller).input_state,
{
    if let Some(t) = &events.translations {
        let moved = position.plus(t.value());
        *position = moved;
    }
    if position.y < 0 {
        position.y = 0;
        controller.jumping = false;
    }
}

} // verus!
