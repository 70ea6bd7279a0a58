//! Key codes, and the state of a key as the operating system reports it.
//!
//! The operating system answers a query about a key with a small signed number.
//! This module decodes that number; asking the question is left to the caller.

use vstd::prelude::*;

verus! {

/// The state of a key at the moment it was queried.
#[derive(Clone, Copy, Debug, PartialEq, Eq, Structural)]
pub enum KeyState {
    /// The key is held down.
    Press,
    /// The key is held down and its lock is on (for keys such as Caps Lock).
    PressAndLock,
    /// The key is up and its lock is on (for keys such as Caps Lock).
    Lock,
    /// The key is neither held down nor locked.
    Idle,
}

impl KeyState {
    /// The number that the operating system reports for a key in this state.
    pub open spec fn reading(self) -> int {
        match self {
            KeyState::Press => -128,
            KeyState::PressAndLock => -127,
            KeyState::Lock => 1,
            KeyState::Idle => 0,
        }
    }

    /// The state that a reported number stands for, if it stands for one.
    pub open spec fn of_reading(reading: int) -> Option<KeyState> {
        if reading == -128 {
            Some(KeyState::Press)
        } else if reading == -127 {
            Some(KeyState::PressAndLock)
        } else if reading == 1 {
            Some(KeyState::Lock)
        } else if reading == 0 {
            Some(KeyState::Idle)
        } else {
            None
        }
    }

    /// Whether a key in this state counts as held down.
    pub open spec fn pressed(self) -> bool {
        self is Press || self is PressAndLock
    }

    /// Whether a key in this state counts as locked.
    pub open spec fn locked(self) -> bool {
        self is Lock || self is PressAndLock
    }

    /// Decodes a number reported by the operating system.
    ///
    /// Returns `None` exactly for the numbers that stand for no state.
    pub fn from_raw(reading: i16) -> (state: Option<KeyState>)
        ensures
            state == KeyState::of_reading(reading as int),
    {
        match reading {
            -128 => Some(KeyState::Press),
            -127 => Some(KeyState::PressAndLock),
            1 => Some(KeyState::Lock),
            0 => Some(KeyState::Idle),
            _ => None,
        }
    }

    /// The number that the operating system reports for a key in this state.
    pub fn raw(self) -> (reading: i16)
        ensures
            reading == self.reading(),
            KeyState::of_reading(reading as int) == Some(self),
    {
        match self {
            KeyState::Press => -128,
            KeyState::PressAndLock => -127,
            KeyState::Lock => 1,
            KeyState::Idle => 0,
        }
    }
}

/// Virtual key codes, by name.
pub struct Keys;

impl Keys {
    pub const BACKSPACE: u32 = 0x08;

    pub const TAB: u32 = 0x09;

    pub const ENTER: u32 = 0x0D;

    pub const ESCAPE: u32 = 0x1B;

    pub const SPACE: u32 = 0x20;

    pub const HOME: u32 = 0x24;

    pub const LEFT: u32 = 0x25;

    pub const UP: u32 = 0x26;

    pub const RIGHT: u32 = 0x27;

    pub const DOWN: u32 = 0x28;

    pub const INDERT: u32 = 0x2D;

    pub const DELETE: u32 = 0x2E;

    pub const NUMROW_0: u32 = 0x30;

    pub const NUMROW_1: u32 = 0x31;

    pub const NUMROW_2: u32 = 0x32;

    pub const NUMROW_3: u32 = 0x33;

    pub const NUMROW_4: u32 = 0x34;

    pub const NUMROW_5: u32 = 0x35;

    pub const NUMROW_6: u32 = 0x36;

    pub const NUMROW_7: u32 = 0x37;

    pub const NUMROW_8: u32 = 0x38;

    pub const NUMROW_9: u32 = 0x39;

    pub const A: u32 = 0x41;

    pub const B: u32 = 0x42;

    pub const C: u32 = 0x43;

    pub const D: u32 = 0x44;

    pub const E: u32 = 0x45;

    pub const F: u32 = 0x46;

    pub const G: u32 = 0x47;

    pub const H: u32 = 0x48;

    pub const I: u32 = 0x49;

    pub const J: u32 = 0x4A;

    pub const K: u32 = 0x4B;

    pub const L: u32 = 0x4C;

    pub const M: u32 = 0x4D;

    pub const N: u32 = 0x4E;

    pub const O: u32 = 0x4F;

    pub const P: u32 = 0x50;

    pub const Q: u32 = 0x51;

    pub const R: u32 = 0x52;

    pub const S: u32 = 0x53;

    pub const T: u32 = 0x54;

    pub const U: u32 = 0x55;

    pub const V: u32 = 0x56;

    pub const W: u32 = 0x57;

    pub const X: u32 = 0x58;

    pub const Y: u32 = 0x59;

    pub const Z: u32 = 0x5A;

    pub const NUMPAD_0: u32 = 0x60;

    pub const NUMPAD_1: u32 = 0x61;

    pub const NUMPAD_2: u32 = 0x62;

    pub const NUMPAD_3: u32 = 0x63;

    pub const NUMPAD_4: u32 = 0x64;

    pub const NUMPAD_5: u32 = 0x65;

    pub const NUMPAD_6: u32 = 0x66;

    pub const NUMPAD_7: u32 = 0x67;

    pub const NUMPAD_8: u32 = 0x68;

    pub const NUMPAD_9: u32 = 0x69;

    pub const F1: u32 = 0x70;

    pub const F2: u32 = 0x71;

    pub const F3: u32 = 0x72;

    pub const F4: u32 = 0x73;

    pub const F5: u32 = 0x74;

    pub const F6: u32 = 0x75;

    pub const F7: u32 = 0x76;

    pub const F8: u32 = 0x77;

    pub const F9: u32 = 0x78;

    pub const F10: u32 = 0x79;

    pub const F11: u32 = 0x7A;

    pub const F12: u32 = 0x7B;

    pub const F13: u32 = 0x7C;

    pub const F14: u32 = 0x7D;

    pub const F15: u32 = 0x7E;

    pub const F16: u32 = 0x7F;

    pub const F17: u32 = 0x80;

    pub const F18: u32 = 0x81;

    pub const F19: u32 = 0x82;

    pub const F20: u32 = 0x83;

    pub const F21: u32 = 0x84;

    pub const F22: u32 = 0x85;

    pub const F23: u32 = 0x86;

    pub const F24: u32 = 0x87;

    pub const NUMLOCK: u32 = 0x90;

    pub const SCROLL_LOCK: u32 = 0x91;

    pub const CAPS_LOCK: u32 = 0x14;

    pub const L_SHIFT: u32 = 0xA0;

    pub const R_SHIFT: u32 = 0xA1;

    pub const L_CONTROL: u32 = 0xA2;

    pub const R_CONTROL: u32 = 0xA3;
}

/// The state that `reading` stands for.
///
/// `reading` is what the operating system answered when asked for the state of a
/// key. A number outside the four that stand for a state means that the platform
/// is not the one this library was written for, and is not accepted here: test
/// with [`KeyState::from_raw`] first.
pub fn check_key_state(reading: i16) -> (state: KeyState)
    requires
        KeyState::of_reading(reading as int) is Some,
    ensures
        KeyState::of_reading(reading as int) == Some(state),
{
    if reading == -128 {
        KeyState::Press
    } else if reading == -127 {
        KeyState::PressAndLock
    } else if reading == 1 {
        KeyState::Lock
    } else {
        KeyState::Idle
    }
}

/// Whether `reading` says that the key is held down, locked or not.
pub fn is_pressed(reading: i16) -> (pressed: bool)
    requires
        KeyState::of_reading(reading as int) is Some,
    ensures
        pressed == KeyState::of_reading(reading as int).unwrap().pressed(),
        pressed == (reading == -128 || reading == -127),
{
    match check_key_state(reading) {
        KeyState::Idle => false,
        KeyState::Lock => false,
        _ => true,
    }
}

/// Whether `reading` says that the key's lock is on, held down or not.
pub fn is_locked(reading: i16) -> (locked: bool)
    requires
        KeyState::of_reading(reading as int) is Some,
    ensures
        locked == KeyState::of_reading(reading as int).unwrap().locked(),
        locked == (reading == 1 || reading == -127),
{
    match check_key_state(reading) {
        KeyState::PressAndLock => true,
        KeyState::Lock => true,
        _ => false,
    }
}

} // verus!
