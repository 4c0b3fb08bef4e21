//! The host-facing vocabulary: display geometry, the eight joypad keys and
//! the key-state record the host hands in when the joypad is polled.

use vstd::prelude::*;

verus! {

pub const DISPLAY_WIDTH: usize = 160;

pub const DISPLAY_HIGHT: usize = 144;

/// Nanoseconds per T-cycle when pacing real time (4.194304 MHz is about
/// 238 ns per cycle).
pub const PROCESSOR_CLOCK_SPEED: u64 = 238;

#[derive(Clone, Copy, Debug, PartialEq, Eq, Structural)]
pub enum Key {
    Right,
    Left,
    Up,
    Down,
    A,
    B,
    Select,
    Start,
}

/// Which keys the host currently reports as held down.
#[derive(Clone, Copy, Debug, PartialEq, Eq, Structural)]
pub struct KeyState {
    pub right: bool,
    pub left: bool,
    pub up: bool,
    pub down: bool,
    pub a: bool,
    pub b: bool,
    pub select: bool,
    pub start: bool,
}

impl KeyState {
    /// No key held down.
    pub fn new() -> (r: KeyState)
        ensures
            r == KeyState::spec_none(),
    {
        KeyState {
            right: false,
            left: false,
            up: false,
            down: false,
            a: false,
            b: false,
            select: false,
            start: false,
        }
    }

    /// No key held down.
    pub open spec fn spec_none() -> KeyState {
        KeyState {
            right: false,
            left: false,
            up: false,
            down: false,
            a: false,
            b: false,
            select: false,
            start: false,
        }
    }

    /// Whether the given key is held down.
    pub open spec fn spec_pressed(self, key: Key) -> bool {
        match key {
            Key::Right => self.right,
            Key::Left => self.left,
            Key::Up => self.up,
            Key::Down => self.down,
            Key::A => self.a,
            Key::B => self.b,
            Key::Select => self.select,
            Key::Start => self.start,
        }
    }

    pub fn pressed(&self, key: Key) -> (r: bool)
        ensures
            r == self.spec_pressed(key),
    {
        match key {
            Key::Right => self.right,
            Key::Left => self.left,
            Key::Up => self.up,
            Key::Down => self.down,
            Key::A => self.a,
            Key::B => self.b,
            Key::Select => self.select,
            Key::Start => self.start,
        }
    }
}

} // verus!
