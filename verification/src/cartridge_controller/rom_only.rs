//! The plain 32 KiB cartridge: ROM mapped at 0x0000-0x7FFF, writes ignored.

use vstd::prelude::*;

use crate::cartridge_controller::Cartridge;
use crate::mmu::{MemRead, MemWrite};

verus! {

pub const ROM_ONLY_TYPE: u8 = 0x0;

pub struct RomOnly {
    pub rom: Vec<u8>,
}

impl View for RomOnly {
    type V = Seq<u8>;

    open spec fn view(&self) -> Seq<u8> {
        self.rom@
    }
}

impl RomOnly {
    pub fn new(data: Vec<u8>) -> (r: RomOnly)
        ensures
            r@ == data@,
    {
        RomOnly { rom: data }
    }

    /// Whether header byte 0x0147 names this controller.
    pub fn probe_cartridge(code: u8) -> (r: bool)
        ensures
            r == (code == ROM_ONLY_TYPE),
    {
        ROM_ONLY_TYPE == code
    }
}

impl Cartridge for RomOnly {
    open spec fn inv(&self) -> bool {
        self.rom@.len() >= 0x8000
    }

    open spec fn spec_read(v: Seq<u8>, addr: u16) -> MemRead {
        if addr <= 0x7FFF {
            MemRead::Read(v[addr as int])
        } else {
            MemRead::Ignore
        }
    }

    open spec fn spec_write(v: Seq<u8>, addr: u16, value: u8) -> Seq<u8> {
        v
    }

    open spec fn spec_handles_write(v: Seq<u8>, addr: u16, value: u8) -> bool {
        addr <= 0x7FFF
    }

    fn read_byte(&self, addr: u16) -> (r: MemRead) {
        if addr <= 0x7FFF {
            MemRead::Read(self.rom[addr as usize])
        } else {
            MemRead::Ignore
        }
    }

    fn write_byte(&mut self, addr: u16, value: u8) -> (r: MemWrite) {
        if addr <= 0x7FFF {
            MemWrite::Write
        } else {
            MemWrite::Ignore
        }
    }
}

} // verus!
