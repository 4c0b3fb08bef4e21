//! Cycle-driven emulator core for the Game Boy family of handheld consoles.
//!
//! The crate models the four central subsystems: the 8-bit processor with its
//! prefix-extended opcode table, the memory bus that routes byte and word
//! accesses to registered devices, the picture-processing unit that renders
//! 160-pixel scan lines, and the interrupt, timer and DMA machinery that share
//! the 4_194_304 Hz master clock.

pub mod apu;
pub mod cartridge_controller;
pub mod emulator;
pub mod hardware;
pub mod ic;
pub mod joypad;
pub mod laws;
pub mod mmu;
pub mod ppu;
pub mod processor;
pub mod ram;
pub mod timer;
pub mod utils;

use vstd::prelude::*;

verus! {

} // verus!
