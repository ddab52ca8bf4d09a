//! A deterministic first/third-person character-movement controller.
//!
//! The controller turns sampled input (key state and mouse motion) into
//! semantic motion events: translations, impulses, forces, and yaw/pitch
//! orientation updates. All quantities are fixed-point integers so that the
//! whole pipeline is exact and verifiable: scalar values (speeds, angles,
//! masses) carry a denominator of [`fixed::UNIT`] and durations are counted
//! in ticks of 1/[`fixed::TICKS_PER_SECOND`] of a second, so that common
//! simulation rates (30, 50, 60, 100, 120 Hz) are whole numbers of ticks.

pub mod controller;
pub mod events;
pub mod fixed;
pub mod input_map;
pub mod look;
pub mod vec3;

pub use fixed::{TICKS_PER_SECOND, UNIT};
