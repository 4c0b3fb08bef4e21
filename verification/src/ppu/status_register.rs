//! The STAT status register (FF41): the mode in bits 0-1, the LYC
//! coincidence flag in bit 2 and the four interrupt-source enables in bits
//! 3-6. Only the enables are writable.

use vstd::prelude::*;

verus! {

#[derive(Clone, Copy, Debug, PartialEq, Eq, Structural)]
pub enum PpuMode {
    HorizontalBlanking,
    VerticalBlanking,
    OAM,
    VRAM,
}

impl PpuMode {
    /// The two mode bits of STAT.
    pub open spec fn spec_bits(self) -> u8 {
        match self {
            PpuMode::HorizontalBlanking => 0,
            PpuMode::VerticalBlanking => 1,
            PpuMode::OAM => 2,
            PpuMode::VRAM => 3,
        }
    }

    pub fn bits(self) -> (r: u8)
        ensures
            r == self.spec_bits(),
    {
        match self {
            PpuMode::HorizontalBlanking => 0,
            PpuMode::VerticalBlanking => 1,
            PpuMode::OAM => 2,
            PpuMode::VRAM => 3,
        }
    }
}

#[derive(Clone, Copy, Debug, PartialEq, Eq, Structural)]
pub struct StatusRegister {
    pub mode: PpuMode,
    /// Whether LY equals LYC, updated as the mode machine advances.
    pub coincidence_flag: bool,
    pub h_blank_int: bool,
    pub v_blank_int: bool,
    pub oam_int: bool,
    pub coincidence_int: bool,
}

impl StatusRegister {
    /// The packed STAT byte.
    pub open spec fn spec_byte(self) -> u8 {
        (self.mode.spec_bits() + (if self.coincidence_flag { 4 as int } else { 0 }) + (
        if self.h_blank_int {
            8 as int
        } else {
            0
        }) + (if self.v_blank_int { 16 as int } else { 0 }) + (if self.oam_int {
            32 as int
        } else {
            0
        }) + (if self.coincidence_int { 64 as int } else { 0 })) as u8
    }

    /// OAM scan, as at reset.
    pub fn new() -> (r: StatusRegister)
        ensures
            r == (StatusRegister {
                mode: PpuMode::OAM,
                coincidence_flag: false,
                h_blank_int: false,
                v_blank_int: false,
                oam_int: false,
                coincidence_int: false,
            }),
    {
        StatusRegister {
            mode: PpuMode::OAM,
            coincidence_flag: false,
            h_blank_int: false,
            v_blank_int: false,
            oam_int: false,
            coincidence_int: false,
        }
    }

    /// Write the four interrupt-source enables; the mode bits and the
    /// coincidence flag are owned by the hardware.
    pub fn set(&mut self, val: u8)
        ensures
            *final(self) == (StatusRegister {
                h_blank_int: val / 8 % 2 == 1,
                v_blank_int: val / 16 % 2 == 1,
                oam_int: val / 32 % 2 == 1,
                coincidence_int: val / 64 % 2 == 1,
                ..*old(self)
            }),
    {
        self.h_blank_int = val / 8 % 2 == 1;
        self.v_blank_int = val / 16 % 2 == 1;
        self.oam_int = val / 32 % 2 == 1;
        self.coincidence_int = val / 64 % 2 == 1;
    }

    pub fn get(&self) -> (r: u8)
        ensures
            r == self.spec_byte(),
    {
        self.mode.bits() + (if self.coincidence_flag { 4u8 } else { 0 }) + (if self.h_blank_int {
            8u8
        } else {
            0
        }) + (if self.v_blank_int { 16u8 } else { 0 }) + (if self.oam_int { 32u8 } else { 0 }) + (
        if self.coincidence_int {
            64u8
        } else {
            0
        })
    }
}

} // verus!
