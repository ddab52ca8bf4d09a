//! Motion events and the per-frame event channel set.
//!
//! Each event is an immutable value created once per emission. The
//! [`ControllerEvents`] struct is the set of typed broadcast channels
//! connecting the controller to backend consumers: at most one event per
//! channel per frame, written by exactly one producer, read by any number of
//! consumers, and discarded (via [`ControllerEvents::clear`]) before the next
//! frame's production, so a reader never observes a stale event.

use vstd::prelude::*;

verus! {

use crate::vec3::Vec3;

/// The scaled look delta applied to the accumulated orientation this frame.
#[derive(Clone, Copy, Debug, PartialEq, Eq, Structural)]
pub struct LookDeltaEvent {
    pub rotation_delta: Vec3,
}

impl LookDeltaEvent {
    pub fn new(other: &Vec3) -> (r: Self)
        ensures
            r.rotation_delta == *other,
    {
        Self { rotation_delta: *other }
    }

    pub fn value(&self) -> (r: Vec3)
        ensures
            r == self.rotation_delta,
    {
        self.rotation_delta
    }
}

/// The full accumulated yaw/pitch/roll orientation after this frame's update.
#[derive(Clone, Copy, Debug, PartialEq, Eq, Structural)]
pub struct LookEvent {
    pub rotation: Vec3,
}

impl LookEvent {
    pub fn new(other: &Vec3) -> (r: Self)
        ensures
            r.rotation == *other,
    {
        Self { rotation: *other }
    }

    pub fn value(&self) -> (r: Vec3)
        ensures
            r == self.rotation,
    {
        self.rotation
    }
}

/// The accumulated pitch angle, in sub-radians.
#[derive(Clone, Copy, Debug, PartialEq, Eq, Structural)]
pub struct PitchEvent {
    pub pitch: i64,
}

impl PitchEvent {
    pub fn new(value: i64) -> (r: Self)
        ensures
            r.pitch == value,
    {
        Self { pitch: value }
    }

    pub fn value(&self) -> (r: i64)
        ensures
            r == self.pitch,
    {
        self.pitch
    }
}

/// The accumulated yaw angle, in sub-radians.
#[derive(Clone, Copy, Debug, PartialEq, Eq, Structural)]
pub struct YawEvent {
    pub yaw: i64,
}

impl YawEvent {
    pub fn new(value: i64) -> (r: Self)
        ensures
            r.yaw == value,
    {
        Self { yaw: value }
    }

    pub fn value(&self) -> (r: i64)
        ensures
            r == self.yaw,
    {
        self.yaw
    }
}

/// The displacement a pure-kinematic consumer should apply this step.
#[derive(Clone, Copy, Debug, PartialEq, Eq, Structural)]
pub struct TranslationEvent {
    pub translation: Vec3,
}

impl TranslationEvent {
    pub fn new(other: &Vec3) -> (r: Self)
        ensures
            r.translation == *other,
    {
        Self { translation: *other }
    }

    pub fn value(&self) -> (r: Vec3)
        ensures
            r == self.translation,
    {
        self.translation
    }
}

/// The momentum change an impulse-based consumer should apply this step.
#[derive(Clone, Copy, Debug, PartialEq, Eq, Structural)]
pub struct ImpulseEvent {
    pub impulse: Vec3,
}

impl ImpulseEvent {
    pub fn new(other: &Vec3) -> (r: Self)
        ensures
            r.impulse == *other,
    {
        Self { impulse: *other }
    }

    pub fn value(&self) -> (r: Vec3)
        ensures
            r == self.impulse,
    {
        self.impulse
    }
}

/// The force a force-based consumer should apply over this step.
#[derive(Clone, Copy, Debug, PartialEq, Eq, Structural)]
pub struct ForceEvent {
    pub force: Vec3,
}

impl ForceEvent {
    pub fn new(other: &Vec3) -> (r: Self)
        ensures
            r.force == *other,
    {
        Self { force: *other }
    }

    pub fn value(&self) -> (r: Vec3)
        ensures
            r == self.force,
    {
        self.force
    }
}

/// One frame's worth of typed broadcast channels. Each channel holds the
/// frame's single event, if one was emitted; writing again within the frame
/// replaces the previous event (last write wins).
#[derive(Clone, Copy, Debug, PartialEq, Eq, Structural)]
pub struct ControllerEvents {
    pub translations: Option<TranslationEvent>,
    pub impulses: Option<ImpulseEvent>,
    pub forces: Option<ForceEvent>,
    pub yaws: Option<YawEvent>,
    pub pitches: Option<PitchEvent>,
    pub looks: Option<LookEvent>,
    pub look_deltas: Option<LookDeltaEvent>,
}

impl ControllerEvents {
    /// All channels empty.
    pub open spec fn is_empty(self) -> bool {
        &&& self.translations is None
        &&& self.impulses is None
        &&& self.forces is None
        &&& self.yaws is None
        &&& self.pitches is None
        &&& self.looks is None
        &&& self.look_deltas is None
    }

    /// A fresh channel set with nothing emitted.
    pub fn new() -> (r: Self)
        ensures
            r.is_empty(),
    {
        Self {
            translations: None,
            impulses: None,
            forces: None,
            yaws: None,
            pitches: None,
            looks: None,
            look_deltas: None,
        }
    }

    /// Discard the frame's events, closing the delivery window.
    pub fn clear(&mut self)
        ensures
            final(self).is_empty(),
    {
        self.translations = None;
        self.impulses = None;
        self.forces = None;
        self.yaws = None;
        self.pitches = None;
        self.looks = None;
        self.look_deltas = None;
    }
}

impl Default for ControllerEvents {
    /// A fresh channel set with nothing emitted.
    fn default() -> (r: Self)
        ensures
            r.is_empty(),
    {
        Self::new()
    }
}

} // verus!
