//! The frame sequencer: an eight-step counter stepping at 512 Hz that paces
//! the length, envelope and sweep units of every sound channel.

use vstd::prelude::*;

use crate::processor::T_CYCLE_FREQUENCY;

verus! {

pub const FRAME_FREQUENCY: u32 = 512;

pub const FRAME_TO_CYCLE_RATIO: u32 = T_CYCLE_FREQUENCY / FRAME_FREQUENCY;

#[derive(Clone, Copy, Debug, PartialEq, Eq, Structural)]
pub struct FrameSequencer {
    pub clock: u32,
    pub current_cycle: u32,
}

impl FrameSequencer {
    pub fn new() -> (r: FrameSequencer)
        ensures
            r == (FrameSequencer { clock: 0, current_cycle: 0 }),
    {
        FrameSequencer { clock: 0, current_cycle: 0 }
    }

    /// Credit `clocks` T-cycles; steps at most once per call and reports
    /// whether it stepped.
    pub fn cycle(&mut self, clocks: u32) -> (stepped: bool)
        requires
            old(self).clock + clocks < 0x8000_0000,
            old(self).current_cycle < 8,
        ensures
            final(self).current_cycle < 8,
            stepped == (old(self).clock + clocks >= 8192),
            stepped ==> *final(self) == (FrameSequencer {
                clock: (old(self).clock + clocks - 8192) as u32,
                current_cycle: ((old(self).current_cycle + 1) % 8) as u32,
            }),
            !stepped ==> *final(self) == (FrameSequencer {
                clock: (old(self).clock + clocks) as u32,
                current_cycle: old(self).current_cycle,
            }),
    {
        self.clock = self.clock + clocks;
        if self.clock >= FRAME_TO_CYCLE_RATIO {
            self.clock = self.clock - FRAME_TO_CYCLE_RATIO;
            self.current_cycle = (self.current_cycle + 1) % 8;
            true
        } else {
            false
        }
    }

    pub fn reset(&mut self)
        ensures
            *final(self) == (FrameSequencer { clock: 0, current_cycle: 0 }),
    {
        self.clock = 0;
        self.current_cycle = 0;
    }
}

} // verus!
