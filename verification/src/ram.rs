//! Work RAM (eight 4 KiB banks, bank 0 fixed at C000, a switchable bank at
//! D000 selected through FF70) and the 127-byte high page at FF80. Echo RAM
//! at E000-FDFF mirrors C000-DDFF.

use vstd::prelude::*;

use crate::mmu::{IoDevice, MemRead, MemWrite};

verus! {

pub const ZERO_PAGE_SIZE: usize = 0x7F;

pub const WRAM_BANK_SIZE: usize = 0x1000;

pub const WRAM_BANK_COUNT: usize = 8;

pub struct Ram {
    pub selected_wram: usize,
    pub wram_banks: Vec<Vec<u8>>,
    pub zero_ram_page: Vec<u8>,
}

/// Work RAM as mathematical values.
#[verifier::ext_equal]
pub ghost struct RamView {
    pub selected_wram: int,
    pub banks: Seq<Seq<u8>>,
    pub zero_page: Seq<u8>,
}

impl View for Ram {
    type V = RamView;

    open spec fn view(&self) -> RamView {
        RamView {
            selected_wram: self.selected_wram as int,
            banks: Seq::new(self.wram_banks@.len(), |b: int| self.wram_banks@[b]@),
            zero_page: self.zero_ram_page@,
        }
    }
}

impl RamView {
    /// The byte the RAM answers for a bus address it owns.
    pub open spec fn spec_value_at(self, addr: u16) -> u8 {
        if 0xC000 <= addr <= 0xCFFF {
            self.banks[0][addr - 0xC000]
        } else if 0xD000 <= addr <= 0xDFFF {
            self.banks[self.selected_wram][addr - 0xD000]
        } else if 0xE000 <= addr <= 0xEFFF {
            self.banks[0][addr - 0xE000]
        } else if 0xF000 <= addr <= 0xFDFF {
            self.banks[self.selected_wram][addr - 0xF000]
        } else if addr == 0xFF70 {
            self.selected_wram as u8
        } else {
            self.zero_page[addr - 0xFF80]
        }
    }
}

impl Ram {
    /// All RAM blocks zero-filled, bank 1 selected, as on power-on.
    pub fn new() -> (r: Ram)
        ensures
            r.inv(),
            r@.selected_wram == 1,
            r@.banks =~~= Seq::new(8, |b: int| Seq::new(0x1000, |i: int| 0u8)),
            r@.zero_page =~= Seq::new(0x7F, |i: int| 0u8),
    {
        let mut banks: Vec<Vec<u8>> = Vec::new();
        while banks.len() < WRAM_BANK_COUNT
            invariant
                banks@.len() <= 8,
                forall|b: int|
                    0 <= b < banks@.len() ==> (#[trigger] banks@[b])@ =~= Seq::new(
                        0x1000, |i: int| 0u8,
                    ),
            decreases 8 - banks@.len(),
        {
            let bank: Vec<u8> = vec![0u8; WRAM_BANK_SIZE];
            banks.push(bank);
        }
        let zero_page: Vec<u8> = vec![0u8; ZERO_PAGE_SIZE];
        let r = Ram { selected_wram: 1, wram_banks: banks, zero_ram_page: zero_page };
        proof {
            assert(r@.banks =~~= Seq::new(8, |b: int| Seq::new(0x1000, |i: int| 0u8)));
        }
        r
    }
}

impl IoDevice for Ram {
    open spec fn inv(&self) -> bool {
        &&& self.wram_banks@.len() == 8
        &&& forall|b: int| 0 <= b < 8 ==> (#[trigger] self.wram_banks@[b])@.len() == 0x1000
        &&& self.zero_ram_page@.len() == 0x7F
        &&& 1 <= self.selected_wram < 8
    }

    open spec fn spec_read(v: RamView, addr: u16) -> MemRead {
        if (0xC000 <= addr <= 0xFDFF) || addr == 0xFF70 || (0xFF80 <= addr <= 0xFFFE) {
            MemRead::Read(v.spec_value_at(addr))
        } else {
            MemRead::Ignore
        }
    }

    open spec fn spec_write(v: RamView, addr: u16, value: u8) -> RamView {
        if 0xC000 <= addr <= 0xCFFF {
            RamView { banks: v.banks.update(0, v.banks[0].update(addr - 0xC000, value)), ..v }
        } else if 0xD000 <= addr <= 0xDFFF {
            RamView {
                banks: v.banks.update(
                    v.selected_wram,
                    v.banks[v.selected_wram].update(addr - 0xD000, value),
                ),
                ..v
            }
        } else if 0xE000 <= addr <= 0xEFFF {
            RamView { banks: v.banks.update(0, v.banks[0].update(addr - 0xE000, value)), ..v }
        } else if 0xF000 <= addr <= 0xFDFF {
            RamView {
                banks: v.banks.update(
                    v.selected_wram,
                    v.banks[v.selected_wram].update(addr - 0xF000, value),
                ),
                ..v
            }
        } else if addr == 0xFF70 {
            RamView {
                selected_wram: if value % 8 == 0 { 1 } else { (value % 8) as int },
                ..v
            }
        } else if 0xFF80 <= addr <= 0xFFFE {
            RamView { zero_page: v.zero_page.update(addr - 0xFF80, value), ..v }
        } else {
            v
        }
    }

    open spec fn spec_handles_write(v: RamView, addr: u16, value: u8) -> bool {
        (0xC000 <= addr <= 0xFDFF) || addr == 0xFF70 || (0xFF80 <= addr <= 0xFFFE)
    }

    fn read_byte(&self, addr: u16) -> (r: MemRead) {
        if 0xC000 <= addr && addr <= 0xCFFF {
            MemRead::Read(self.wram_banks[0][(addr - 0xC000) as usize])
        } else if 0xD000 <= addr && addr <= 0xDFFF {
            MemRead::Read(self.wram_banks[self.selected_wram][(addr - 0xD000) as usize])
        } else if 0xE000 <= addr && addr <= 0xEFFF {
            MemRead::Read(self.wram_banks[0][(addr - 0xE000) as usize])
        } else if 0xF000 <= addr && addr <= 0xFDFF {
            MemRead::Read(self.wram_banks[self.selected_wram][(addr - 0xF000) as usize])
        } else if addr == 0xFF70 {
            MemRead::Read(self.selected_wram as u8)
        } else if 0xFF80 <= addr && addr <= 0xFFFE {
            MemRead::Read(self.zero_ram_page[(addr - 0xFF80) as usize])
        } else {
            MemRead::Ignore
        }
    }

    fn write_byte(&mut self, addr: u16, value: u8) -> (r: MemWrite) {
        let ghost pre = self@;
        let r = if 0xC000 <= addr && addr <= 0xCFFF {
            self.wram_banks[0][(addr - 0xC000) as usize] = value;
            MemWrite::Write
        } else if 0xD000 <= addr && addr <= 0xDFFF {
            let sel = self.selected_wram;
            self.wram_banks[sel][(addr - 0xD000) as usize] = value;
            MemWrite::Write
        } else if 0xE000 <= addr && addr <= 0xEFFF {
            self.wram_banks[0][(addr - 0xE000) as usize] = value;
            MemWrite::Write
        } else if 0xF000 <= addr && addr <= 0xFDFF {
            let sel = self.selected_wram;
            self.wram_banks[sel][(addr - 0xF000) as usize] = value;
            MemWrite::Write
        } else if addr == 0xFF70 {
            let v = (value % 8) as usize;
            self.selected_wram = if v == 0 { 1 } else { v };
            MemWrite::Write
        } else if 0xFF80 <= addr && addr <= 0xFFFE {
            self.zero_ram_page[(addr - 0xFF80) as usize] = value;
            MemWrite::Write
        } else {
            MemWrite::Ignore
        };
        proof {
            assert(self@ =~~= Ram::spec_write(pre, addr, value));
        }
        r
    }
}

} // verus!
