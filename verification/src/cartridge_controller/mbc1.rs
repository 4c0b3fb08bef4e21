//! The MBC1 bank-switching controller: a 5-bit low ROM bank select, a 2-bit
//! high select shared with the RAM bank per the mode bit, and external RAM
//! gated by the enable nibble.

use vstd::prelude::*;

use crate::cartridge_controller::Cartridge;
use crate::mmu::{MemRead, MemWrite};

verus! {

pub const MBC1_TYPE: u8 = 0x1;

pub const MBC1_RAM_TYPE: u8 = 0x2;

pub const MBC1_RAM_BATTERY_TYPE: u8 = 0x3;

pub struct Mbc1 {
    pub rom: Vec<u8>,
    pub ram: Vec<u8>,
    pub rom_bank: usize,
    pub ram_bank: usize,
    pub ram_enable: bool,
    pub ram_select: bool,
}

/// An MBC1 cartridge as mathematical values.
#[verifier::ext_equal]
pub ghost struct Mbc1View {
    pub rom: Seq<u8>,
    pub ram: Seq<u8>,
    pub rom_bank: int,
    pub ram_bank: int,
    pub ram_enable: bool,
    pub ram_select: bool,
}

impl View for Mbc1 {
    type V = Mbc1View;

    open spec fn view(&self) -> Mbc1View {
        Mbc1View {
            rom: self.rom@,
            ram: self.ram@,
            rom_bank: self.rom_bank as int,
            ram_bank: self.ram_bank as int,
            ram_enable: self.ram_enable,
            ram_select: self.ram_select,
        }
    }
}

impl Mbc1View {
    /// The ROM bank that a 0x4000-0x7FFF read goes to: zero reads as bank 1,
    /// and the banks 0x20, 0x40 and 0x60 are bumped by one as the hardware
    /// does.
    pub open spec fn spec_effective_bank(self) -> int {
        let b = if self.rom_bank == 0 {
            1
        } else {
            self.rom_bank
        };
        if b == 0x20 || b == 0x40 || b == 0x60 {
            b + 1
        } else {
            b
        }
    }
}

impl Mbc1 {
    /// A freshly mounted cartridge: bank 1 selected, RAM disabled and
    /// zero-filled.
    pub fn new(rom: Vec<u8>) -> (r: Mbc1)
        ensures
            r@.rom == rom@,
            r@.ram =~= Seq::new(0x8000, |i: int| 0u8),
            r@.rom_bank == 1,
            r@.ram_bank == 0,
            !r@.ram_enable,
            !r@.ram_select,
            rom@.len() >= 0x8000 ==> r.inv(),
    {
        let ram: Vec<u8> = vec![0u8; 0x8000];
        Mbc1 { rom, ram, rom_bank: 1, ram_bank: 0, ram_enable: false, ram_select: false }
    }

    /// Whether header byte 0x0147 names an MBC1 variant.
    pub fn probe_cartridge(code: u8) -> (r: bool)
        ensures
            r == (code == MBC1_TYPE || code == MBC1_RAM_TYPE || code == MBC1_RAM_BATTERY_TYPE),
    {
        code == MBC1_TYPE || code == MBC1_RAM_TYPE || code == MBC1_RAM_BATTERY_TYPE
    }
}

impl Cartridge for Mbc1 {
    open spec fn inv(&self) -> bool {
        &&& self.rom@.len() >= 0x8000
        &&& self.ram@.len() == 0x8000
        &&& 0 <= self.rom_bank <= 0x7F
        &&& 0 <= self.ram_bank <= 3
    }

    open spec fn spec_read(v: Mbc1View, addr: u16) -> MemRead {
        if addr <= 0x3FFF {
            MemRead::Read(v.rom[addr as int])
        } else if addr <= 0x7FFF {
            let idx = (v.spec_effective_bank() * 0x4000 + (addr - 0x4000)) % (v.rom.len() as int);
            MemRead::Read(v.rom[idx])
        } else if 0xA000 <= addr <= 0xBFFF {
            if v.ram_enable {
                MemRead::Read(v.ram[v.ram_bank * 0x2000 + (addr - 0xA000)])
            } else {
                MemRead::Read(0)
            }
        } else {
            MemRead::Ignore
        }
    }

    open spec fn spec_write(v: Mbc1View, addr: u16, value: u8) -> Mbc1View {
        if addr <= 0x1FFF {
            Mbc1View { ram_enable: value % 16 == 0xA, ..v }
        } else if addr <= 0x3FFF {
            let low = if value % 32 == 0 {
                1
            } else {
                value % 32
            };
            Mbc1View { rom_bank: v.rom_bank - v.rom_bank % 32 + low, ..v }
        } else if addr <= 0x5FFF {
            if v.ram_select {
                Mbc1View { ram_bank: value as int % 4, ..v }
            } else {
                Mbc1View { rom_bank: v.rom_bank % 32 + (value as int % 4) * 32, ..v }
            }
        } else if addr <= 0x7FFF {
            Mbc1View { ram_select: value % 2 == 1, ..v }
        } else if 0xA000 <= addr <= 0xBFFF {
            if v.ram_enable {
                Mbc1View { ram: v.ram.update(v.ram_bank * 0x2000 + (addr - 0xA000), value), ..v }
            } else {
                v
            }
        } else {
            v
        }
    }

    open spec fn spec_handles_write(v: Mbc1View, addr: u16, value: u8) -> bool {
        addr <= 0x7FFF || (0xA000 <= addr <= 0xBFFF)
    }

    fn read_byte(&self, addr: u16) -> (r: MemRead) {
        if addr <= 0x3FFF {
            MemRead::Read(self.rom[addr as usize])
        } else if addr <= 0x7FFF {
            let b = if self.rom_bank == 0 {
                1
            } else {
                self.rom_bank
            };
            let bank = if b == 0x20 || b == 0x40 || b == 0x60 {
                b + 1
            } else {
                b
            };
            let idx = (bank * 0x4000 + (addr as usize - 0x4000)) % self.rom.len();
            MemRead::Read(self.rom[idx])
        } else if 0xA000 <= addr && addr <= 0xBFFF {
            if self.ram_enable {
                MemRead::Read(self.ram[self.ram_bank * 0x2000 + (addr as usize - 0xA000)])
            } else {
                MemRead::Read(0)
            }
        } else {
            MemRead::Ignore
        }
    }

    fn write_byte(&mut self, addr: u16, value: u8) -> (r: MemWrite) {
        if addr <= 0x1FFF {
            self.ram_enable = value % 16 == 0xA;
            MemWrite::Write
        } else if addr <= 0x3FFF {
            let low = if value % 32 == 0 {
                1
            } else {
                (value % 32) as usize
            };
            self.rom_bank = self.rom_bank - self.rom_bank % 32 + low;
            MemWrite::Write
        } else if addr <= 0x5FFF {
            if self.ram_select {
                self.ram_bank = value as usize % 4;
            } else {
                self.rom_bank = self.rom_bank % 32 + (value as usize % 4) * 32;
            }
            MemWrite::Write
        } else if addr <= 0x7FFF {
            self.ram_select = value % 2 == 1;
            MemWrite::Write
        } else if 0xA000 <= addr && addr <= 0xBFFF {
            if self.ram_enable {
                self.ram[self.ram_bank * 0x2000 + (addr as usize - 0xA000)] = value;
            }
            MemWrite::Write
        } else {
            MemWrite::Ignore
        }
    }
}

} // verus!
