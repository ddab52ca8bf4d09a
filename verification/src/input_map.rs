//! Key bindings.
//!
//! [`InputMap`] maps each logical action (move, jump, run, fly toggle, fly
//! up/down) to a physical key code. It is data only: the motion-intent
//! deriver samples it against the frame's key state.

use vstd::prelude::*;

verus! {

/// A physical key identity. Only the keys that the default bindings use are
/// named here; the set can grow without affecting any contract.
#[derive(Clone, Copy, Debug, PartialEq, Eq, Structural)]
pub enum KeyCode {
    W,
    A,
    S,
    D,
    E,
    Q,
    F,
    Space,
    LShift,
    LControl,
}

/// The key bindings of one controlled character. Immutable after
/// construction.
#[derive(Clone, Copy, Debug, PartialEq, Eq, Structural)]
pub struct InputMap {
    pub key_forward: KeyCode,
    pub key_backward: KeyCode,
    pub key_left: KeyCode,
    pub key_right: KeyCode,
    pub key_jump: KeyCode,
    pub key_run: KeyCode,
    pub key_crouch: KeyCode,
    pub invert_y: bool,
    pub key_fly: KeyCode,
    pub key_fly_up: KeyCode,
    pub key_fly_down: KeyCode,
}

impl InputMap {
    /// The conventional first-person bindings.
    pub open spec fn default_spec() -> InputMap {
        InputMap {
            key_forward: KeyCode::W,
            key_backward: KeyCode::S,
            key_left: KeyCode::A,
            key_right: KeyCode::D,
            key_jump: KeyCode::Space,
            key_run: KeyCode::LShift,
            key_crouch: KeyCode::LControl,
            invert_y: false,
            key_fly: KeyCode::F,
            key_fly_up: KeyCode::E,
            key_fly_down: KeyCode::Q,
        }
    }
}

impl Default for InputMap {
    /// The conventional first-person bindings.
    fn default() -> (r: Self)
        ensures
            r == InputMap::default_spec(),
    {
        Self {
            key_forward: KeyCode::W,
            key_backward: KeyCode::S,
            key_left: KeyCode::A,
            key_right: KeyCode::D,
            key_jump: KeyCode::Space,
            key_run: KeyCode::LShift,
            key_crouch: KeyCode::LControl,
            invert_y: false,
            key_fly: KeyCode::F,
            key_fly_up: KeyCode::E,
            key_fly_down: KeyCode::Q,
        }
    }
}

/// Whether `key` occurs in the sampled key list.
pub fn contains_key(keys: &Vec<KeyCode>, key: KeyCode) -> (b: bool)
    ensures
        b == keys@.contains(key),
{
    let mut i: usize = 0;
    while i < keys.len()
        invariant
            i <= keys@.len(),
            forall|j: int| 0 <= j < i ==> keys@[j] != key,
        decreases keys@.len() - i,
    {
        if keys[i] == key {
            return true;
        }
        i = i + 1;
    }
    false
}

} // verus!
