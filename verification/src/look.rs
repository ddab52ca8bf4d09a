//! The look/orientation state machine.
//!
//! Raw mouse-motion deltas accumulated over a frame are negated (pointer
//! right rotates the view right), scaled by the sensitivity, and added to
//! the persistent yaw/pitch/roll triple. Pitch is clamped to stay clear of
//! the gimbal singularity, yaw wraps on a full turn, and roll is never
//! changed. A non-negligible scaled delta emits, in this order, a
//! [`LookDeltaEvent`], a [`LookEvent`], a [`PitchEvent`] and a [`YawEvent`];
//! a negligible one is a no-op that leaves both the state and the channels
//! untouched.

use vstd::prelude::*;

verus! {

use crate::events::{ControllerEvents, LookDeltaEvent, LookEvent, PitchEvent, YawEvent};
use crate::fixed::{lemma_tdiv_bound, mul_div, rem_trunc, tdiv, trem, UNIT};
use crate::vec3::{Vec2, Vec2i, Vec3, Vec3i};

/// The largest pitch magnitude, in sub-radians: a quarter turn less one
/// thousandth of a radian, keeping the view clear of straight up or down.
pub const PITCH_BOUND: i64 = 1_569_796;

/// A full turn (two pi), in sub-radians; yaw wraps on this.
pub const FULL_TURN: i64 = 6_283_185;

/// The largest accepted sensitivity: a scale factor of a thousand.
pub const SENSITIVITY_LIMIT: i64 = 1_000_000_000;

/// The largest accepted net mouse delta per frame, per axis: a million units.
pub const DELTA_LIMIT: i64 = 1_000_000_000_000;

/// The handle of the entity whose look state steers a controlled body; the
/// association is resolved once at attach time, not re-walked every frame.
#[derive(Clone, Copy, Debug, PartialEq, Eq, Structural)]
pub struct LookEntity(pub u64);

/// The forward/right/up basis derived from the current orientation,
/// recomputed every frame by the basis deriver.
#[derive(Clone, Copy, Debug, PartialEq, Eq, Structural)]
pub struct LookDirection {
    pub forward: Vec3,
    pub right: Vec3,
    pub up: Vec3,
}

impl LookDirection {
    /// A usable basis: components of unit scale (within a factor of two) and
    /// forward/right not degenerate when projected onto the horizontal
    /// plane, so grounded movement can renormalize them.
    pub open spec fn wf(self) -> bool {
        &&& self.forward@.in_range(2 * UNIT)
        &&& self.right@.in_range(2 * UNIT)
        &&& self.up@.in_range(2 * UNIT)
        &&& self.forward@.horizontal().len_sq() >= 1
        &&& self.right@.horizontal().len_sq() >= 1
    }

    /// Whether this basis is usable; lets a caller test [`Self::wf`].
    pub fn check(&self) -> (b: bool)
        ensures
            b == self.wf(),
    {
        let bound: i64 = 2 * UNIT;
        if self.forward.x < -bound || self.forward.x > bound || self.forward.y < -bound
            || self.forward.y > bound || self.forward.z < -bound || self.forward.z > bound {
            return false;
        }
        if self.right.x < -bound || self.right.x > bound || self.right.y < -bound || self.right.y
            > bound || self.right.z < -bound || self.right.z > bound {
            return false;
        }
        if self.up.x < -bound || self.up.x > bound || self.up.y < -bound || self.up.y > bound
            || self.up.z < -bound || self.up.z > bound {
            return false;
        }
        proof {
            assert(0 <= self.forward@.x * self.forward@.x <= 4_000_000_000_000int && 0
                <= self.forward@.z * self.forward@.z <= 4_000_000_000_000int && 0 <= self.right@.x
                * self.right@.x <= 4_000_000_000_000int && 0 <= self.right@.z * self.right@.z
                <= 4_000_000_000_000int) by (nonlinear_arith)
                requires
                    -2_000_000 <= self.forward@.x <= 2_000_000,
                    -2_000_000 <= self.forward@.z <= 2_000_000,
                    -2_000_000 <= self.right@.x <= 2_000_000,
                    -2_000_000 <= self.right@.z <= 2_000_000;
        }
        let fh: i64 = self.forward.x * self.forward.x + self.forward.z * self.forward.z;
        let rh: i64 = self.right.x * self.right.x + self.right.z * self.right.z;
        fh >= 1 && rh >= 1
    }
}

impl Default for LookDirection {
    /// The canonical rest basis.
    fn default() -> (r: Self)
        ensures
            r.forward@.x == 0 && r.forward@.y == 0 && r.forward@.z == UNIT,
            r.right@.x == -UNIT && r.right@.y == 0 && r.right@.z == 0,
            r.up@.x == 0 && r.up@.y == UNIT && r.up@.z == 0,
    {
        Self {
            forward: Vec3 { x: 0, y: 0, z: UNIT },
            right: Vec3 { x: -UNIT, y: 0, z: 0 },
            up: Vec3 { x: 0, y: UNIT, z: 0 },
        }
    }
}

/// The persistent look state: the mouse sensitivity and the accumulated
/// yaw/pitch/roll triple, in sub-radians.
#[derive(Clone, Copy, Debug, PartialEq, Eq, Structural)]
pub struct MouseSettings {
    pub sensitivity: i64,
    pub yaw_pitch_roll: Vec3,
}

impl MouseSettings {
    /// The state invariant: sensitivity in range, yaw wrapped within a full
    /// turn, pitch clamped, roll within a full turn.
    pub open spec fn wf(self) -> bool {
        &&& 0 <= self.sensitivity <= SENSITIVITY_LIMIT
        &&& -FULL_TURN < self.yaw_pitch_roll@.x < FULL_TURN
        &&& -PITCH_BOUND <= self.yaw_pitch_roll@.y <= PITCH_BOUND
        &&& -FULL_TURN < self.yaw_pitch_roll@.z < FULL_TURN
    }
}

impl Default for MouseSettings {
    /// A sensitivity of one hundredth, at rest orientation.
    fn default() -> (r: Self)
        ensures
            r.sensitivity == 10_000,
            r.yaw_pitch_roll@.x == 0 && r.yaw_pitch_roll@.y == 0 && r.yaw_pitch_roll@.z == 0,
            r.wf(),
    {
        Self { sensitivity: 10_000, yaw_pitch_roll: Vec3 { x: 0, y: 0, z: 0 } }
    }
}

/// The net raw delta scaled by the sensitivity, truncating toward zero.
pub open spec fn scaled_delta(d: Vec2i, sensitivity: int) -> Vec2i {
    Vec2i { x: tdiv(d.x * sensitivity, UNIT as int), y: tdiv(d.y * sensitivity, UNIT as int) }
}

/// Yaw wrapped on a full turn (sign preserved, magnitude under a turn).
pub open spec fn wrap_turn(a: int) -> int {
    trem(a, FULL_TURN as int)
}

/// Pitch clamped into `[-PITCH_BOUND, PITCH_BOUND]`.
pub open spec fn clamp_pitch(p: int) -> int {
    if p > PITCH_BOUND {
        PITCH_BOUND as int
    } else if p < -PITCH_BOUND {
        -PITCH_BOUND as int
    } else {
        p
    }
}

/// One look update: a significant scaled delta moves yaw and pitch, a
/// negligible one changes nothing. Roll never changes.
pub open spec fn look_next(ypr: Vec3i, sd: Vec2i) -> Vec3i {
    if sd.is_significant() {
        Vec3i { x: wrap_turn(ypr.x + sd.x), y: clamp_pitch(ypr.y + sd.y), z: ypr.z }
    } else {
        ypr
    }
}

/// The look state after a whole sequence of per-frame net deltas.
pub open spec fn look_run(ypr: Vec3i, sensitivity: int, deltas: Seq<Vec2i>) -> Vec3i
    decreases deltas.len(),
{
    if deltas.len() == 0 {
        ypr
    } else {
        look_next(
            look_run(ypr, sensitivity, deltas.drop_last()),
            scaled_delta(deltas.last(), sensitivity),
        )
    }
}

/// Law: pitch stays clamped. Whatever sequence of mouse deltas is fed in,
/// however large each single delta, the derived pitch never leaves
/// `[-PITCH_BOUND, PITCH_BOUND]`.
pub proof fn lemma_pitch_always_bounded(ypr: Vec3i, sensitivity: int, deltas: Seq<Vec2i>)
    requires
        -PITCH_BOUND <= ypr.y <= PITCH_BOUND,
    ensures
        -PITCH_BOUND <= look_run(ypr, sensitivity, deltas).y <= PITCH_BOUND,
    decreases deltas.len(),
{
    if deltas.len() > 0 {
        lemma_pitch_always_bounded(ypr, sensitivity, deltas.drop_last());
    }
}

/// Law: roll never moves. The look updater only ever touches yaw and pitch.
pub proof fn lemma_roll_constant(ypr: Vec3i, sensitivity: int, deltas: Seq<Vec2i>)
    ensures
        look_run(ypr, sensitivity, deltas).z == ypr.z,
    decreases deltas.len(),
{
    if deltas.len() > 0 {
        lemma_roll_constant(ypr, sensitivity, deltas.drop_last());
    }
}

/// The negated sum of the frame's raw mouse deltas (pointer right turns the
/// view right, so the raw sign is inverted).
pub open spec fn mouse_sum(deltas: Seq<Vec2>) -> Vec2i
    decreases deltas.len(),
{
    if deltas.len() == 0 {
        Vec2i { x: 0, y: 0 }
    } else {
        let rest = mouse_sum(deltas.drop_last());
        Vec2i { x: rest.x - deltas.last()@.x, y: rest.y - deltas.last()@.y }
    }
}

/// Drain the frame's raw mouse deltas into one net (negated) delta.
pub fn accumulate_mouse(deltas: &Vec<Vec2>) -> (r: Vec2)
    requires
        deltas@.len() <= 1000,
        forall|i: int|
            0 <= i < deltas@.len() ==> (-1_000_000_000 <= #[trigger] deltas@[i]@.x
                <= 1_000_000_000 && -1_000_000_000 <= deltas@[i]@.y <= 1_000_000_000),
    ensures
        r@ == mouse_sum(deltas@),
        -DELTA_LIMIT <= r@.x <= DELTA_LIMIT,
        -DELTA_LIMIT <= r@.y <= DELTA_LIMIT,
{
    let mut x: i64 = 0;
    let mut y: i64 = 0;
    let mut i: usize = 0;
    while i < deltas.len()
        invariant
            i <= deltas@.len() <= 1000,
            forall|j: int|
                0 <= j < deltas@.len() ==> (-1_000_000_000 <= #[trigger] deltas@[j]@.x
                    <= 1_000_000_000 && -1_000_000_000 <= deltas@[j]@.y <= 1_000_000_000),
            x == mouse_sum(deltas@.take(i as int)).x,
            y == mouse_sum(deltas@.take(i as int)).y,
            -1_000_000_000 * i <= x <= 1_000_000_000 * i,
            -1_000_000_000 * i <= y <= 1_000_000_000 * i,
        decreases deltas@.len() - i,
    {
        let d = deltas[i];
        proof {
            assert(-1_000_000_000 <= deltas@[i as int]@.x <= 1_000_000_000 && -1_000_000_000
                <= deltas@[i as int]@.y <= 1_000_000_000);
            assert(deltas@.take(i as int + 1).drop_last() =~= deltas@.take(i as int));
            assert(deltas@.take(i as int + 1).last() == deltas@[i as int]);
        }
        x = x - d.x;
        y = y - d.y;
        i = i + 1;
    }
    proof {
        assert(deltas@.take(deltas@.len() as int) =~= deltas@);
    }
    Vec2 { x, y }
}

/// The look state updater: apply the frame's net raw mouse delta to the
/// accumulated orientation and broadcast the outcome.
///
/// A scaled delta of negligible squared magnitude is a complete no-op:
/// neither the state nor any channel changes. Otherwise yaw and pitch move
/// (wrapped and clamped) and the four look channels are written.
pub fn input_to_look(settings: &mut MouseSettings, delta: Vec2, events: &mut ControllerEvents)
    requires
        old(settings).wf(),
        -DELTA_LIMIT <= delta@.x <= DELTA_LIMIT,
        -DELTA_LIMIT <= delta@.y <= DELTA_LIMIT,
    ensures
        final(settings).wf(),
        final(settings).sensitivity == old(settings).sensitivity,
        final(settings).yaw_pitch_roll@ == look_next(
            old(settings).yaw_pitch_roll@,
            scaled_delta(delta@, old(settings).sensitivity as int),
        ),
        final(events).translations == old(events).translations,
        final(events).impulses == old(events).impulses,
        final(events).forces == old(events).forces,
        !scaled_delta(delta@, old(settings).sensitivity as int).is_significant() ==> ((*final(
            settings)) == *old(settings) && (*final(events)) == *old(events)),
        scaled_delta(delta@, old(settings).sensitivity as int).is_significant() ==> ({
            let sd = scaled_delta(delta@, old(settings).sensitivity as int);
            &&& (final(events).look_deltas matches Some(e) && e.rotation_delta@.x == sd.x
                && e.rotation_delta@.y == sd.y && e.rotation_delta@.z == 0)
            &&& (final(events).looks matches Some(e) && e.rotation == final(settings).yaw_pitch_roll)
            &&& (final(events).pitches matches Some(e) && e.pitch == final(settings).yaw_pitch_roll.y)
            &&& (final(events).yaws matches Some(e) && e.yaw == final(settings).yaw_pitch_roll.x)
        }),
{
    let ghost sens: int = settings.sensitivity as int;
    proof {
        let dx = delta@.x;
        let dy = delta@.y;
        assert(-1_000_000_000_000_000_000_000int <= dx * sens <= 1_000_000_000_000_000_000_000int
            && -1_000_000_000_000_000_000_000int <= dy * sens
            <= 1_000_000_000_000_000_000_000int) by (nonlinear_arith)
            requires
                -1_000_000_000_000int <= dx <= 1_000_000_000_000int,
                -1_000_000_000_000int <= dy <= 1_000_000_000_000int,
                0 <= sens <= 1_000_000_000int;
        assert(1_000_000_000_000_000_000_000int == (UNIT as int) * 1_000_000_000_000_000int);
        lemma_tdiv_bound(dx * sens, UNIT as int, 1_000_000_000_000_000);
        lemma_tdiv_bound(dy * sens, UNIT as int, 1_000_000_000_000_000);
    }
    let sx: i64 = mul_div(delta.x, settings.sensitivity, UNIT);
    let sy: i64 = mul_div(delta.y, settings.sensitivity, UNIT);
    let scaled = Vec2 { x: sx, y: sy };
    if scaled.is_significant() {
        let yaw: i64 = rem_trunc(settings.yaw_pitch_roll.x + sx, FULL_TURN);
        let raw_pitch: i64 = settings.yaw_pitch_roll.y + sy;
        let pitch: i64 = if raw_pitch > PITCH_BOUND {
            PITCH_BOUND
        } else if raw_pitch < -PITCH_BOUND {
            -PITCH_BOUND
        } else {
            raw_pitch
        };
        settings.yaw_pitch_roll = Vec3 { x: yaw, y: pitch, z: settings.yaw_pitch_roll.z };
        events.look_deltas = Some(LookDeltaEvent::new(&Vec3 { x: sx, y: sy, z: 0 }));
        events.looks = Some(LookEvent::new(&settings.yaw_pitch_roll));
        events.pitches = Some(PitchEvent::new(pitch));
        events.yaws = Some(YawEvent::new(yaw));
    }
}

} // verus!
