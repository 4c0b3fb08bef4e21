//! The emulator top: configuration, the device wiring and the cycle loop
//! that drives the processor and credits its cycles to the other
//! subsystems.

use vstd::prelude::*;

verus! {

/// Which console model is emulated: the monochrome Classic or the Color.
#[derive(Clone, Copy, Debug, PartialEq, Eq, Structural)]
pub enum GameBoyMode {
    Classic,
    Color,
}

/// The recognized configuration fields.
#[derive(Clone, Copy, Debug)]
pub struct EmulatorConfig {
    pub game_boy_mode: GameBoyMode,
    /// When false, a ROM whose header checksum does not match is rejected.
    pub allow_bad_checksum: bool,
    /// When true, real-time pacing is disabled and the host loop runs free.
    pub native_speed: bool,
    /// Nanoseconds per T-cycle when pacing.
    pub cpu_speed: u64,
}

} // verus!
