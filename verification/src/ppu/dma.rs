//! The DMA engine: the 160-byte OAM transfer triggered through FF46, and
//! the Color-mode VRAM transfers (general-purpose, or H-blank-paced)
//! controlled through FF51-FF55.
//!
//! The manager itself only decides what to copy and when; the bus carries
//! the bytes.

use vstd::prelude::*;

use crate::mmu::{IoDevice, MemRead, MemWrite};
use crate::ppu::status_register::PpuMode;

verus! {

pub const OAM_DMA_TIME: u32 = 640;

#[derive(Clone, Copy, Debug, PartialEq, Eq, Structural)]
pub enum DmaType {
    Oam,
    Hdma,
    Gdma,
    Idle,
}

/// What the bus must copy for the engine this step.
#[derive(Clone, Copy, Debug, PartialEq, Eq, Structural)]
pub enum DmaWork {
    /// Nothing to copy.
    Rest,
    /// The 160-byte OAM transfer from `base * 0x100`.
    OamCopy(u8),
    /// `rows * 16` bytes from the source to the target address.
    Rows { src: u16, dst: u16, rows: u8 },
}

#[derive(Clone, Copy, Debug, PartialEq, Eq, Structural)]
pub struct DmaManager {
    pub dma_type: DmaType,
    pub oma_base_adder: u8,
    pub vram_dma_source: u16,
    pub vram_dma_target: u16,
    pub vram_dma_len: u8,
}

impl View for DmaManager {
    type V = DmaManager;

    open spec fn view(&self) -> DmaManager {
        *self
    }
}

impl DmaManager {
    pub fn new() -> (r: DmaManager)
        ensures
            r == (DmaManager {
                dma_type: DmaType::Idle,
                oma_base_adder: 0,
                vram_dma_source: 0,
                vram_dma_target: 0,
                vram_dma_len: 0,
            }),
            r.inv(),
    {
        DmaManager {
            dma_type: DmaType::Idle,
            oma_base_adder: 0,
            vram_dma_source: 0,
            vram_dma_target: 0,
            vram_dma_len: 0,
        }
    }

    /// Whether an OAM transfer is in flight (reads outside high RAM then
    /// see the open bus).
    pub open spec fn spec_oam_dma_active(&self) -> bool {
        self.dma_type is Oam
    }

    pub fn is_oam_dma_active(&self) -> (r: bool)
        ensures
            r == self.spec_oam_dma_active(),
    {
        matches!(self.dma_type, DmaType::Oam)
    }

    /// The engine's decision for this step, given the PPU's mode and the
    /// accumulated clock: the clock left over, whether a transfer is still
    /// holding the machine, and what the bus must copy now.
    ///
    /// The OAM transfer completes once 640 T-cycles have accumulated. An
    /// H-blank transfer moves one 16-byte row per step spent in H-blank and
    /// quiesces when its length counter wraps to 0x7F. A general-purpose
    /// transfer moves all of its rows at once.
    pub fn cycle(&mut self, ppu_mode: PpuMode, clock: u32) -> (r: (u32, bool, DmaWork))
        requires
            old(self).inv(),
        ensures
            final(self).inv(),
            old(self).dma_type is Idle ==> r == (clock, false, DmaWork::Rest) && *final(self)
                == *old(self),
            old(self).dma_type is Oam ==> if clock >= 640 {
                r == ((clock - 640) as u32, false, DmaWork::OamCopy(old(self).oma_base_adder))
                    && *final(self) == (DmaManager { dma_type: DmaType::Idle, ..*old(self) })
            } else {
                r == (clock, true, DmaWork::Rest) && *final(self) == *old(self)
            },
            old(self).dma_type is Hdma ==> if ppu_mode is HorizontalBlanking && clock >= 8 {
                r == ((clock - 8) as u32, false, (DmaWork::Rows {
                    src: old(self).vram_dma_source,
                    dst: old(self).vram_dma_target,
                    rows: 1,
                })) && *final(self) == (DmaManager {
                    dma_type: if old(self).vram_dma_len == 0 {
                        DmaType::Idle
                    } else {
                        DmaType::Hdma
                    },
                    vram_dma_source: ((old(self).vram_dma_source + 16) % 0x10000) as u16,
                    vram_dma_target: ((old(self).vram_dma_target + 16) % 0x10000) as u16,
                    vram_dma_len: if old(self).vram_dma_len == 0 {
                        0x7F
                    } else {
                        (old(self).vram_dma_len - 1) as u8
                    },
                    ..*old(self)
                })
            } else {
                r == (clock, ppu_mode is HorizontalBlanking, DmaWork::Rest) && *final(self)
                    == *old(self)
            },
            old(self).dma_type is Gdma ==> {
                let rows = old(self).vram_dma_len + 1;
                if clock > rows * 8 {
                    r == ((clock - rows * 8) as u32, false, (DmaWork::Rows {
                        src: old(self).vram_dma_source,
                        dst: old(self).vram_dma_target,
                        rows: (old(self).vram_dma_len + 1) as u8,
                    })) && *final(self) == (DmaManager {
                        dma_type: DmaType::Idle,
                        vram_dma_source: ((old(self).vram_dma_source + 16 * rows) % 0x10000) as u16,
                        vram_dma_target: ((old(self).vram_dma_target + 16 * rows) % 0x10000) as u16,
                        vram_dma_len: 0x7F,
                        ..*old(self)
                    })
                } else {
                    r == (clock, true, DmaWork::Rest) && *final(self) == *old(self)
                }
            },
    {
        match self.dma_type {
            DmaType::Idle => (clock, false, DmaWork::Rest),
            DmaType::Oam => {
                if clock >= OAM_DMA_TIME {
                    self.dma_type = DmaType::Idle;
                    (clock - OAM_DMA_TIME, false, DmaWork::OamCopy(self.oma_base_adder))
                } else {
                    (clock, true, DmaWork::Rest)
                }
            }
            DmaType::Hdma => {
                if matches!(ppu_mode, PpuMode::HorizontalBlanking) {
                    if clock >= 8 {
                        let work = DmaWork::Rows {
                            src: self.vram_dma_source,
                            dst: self.vram_dma_target,
                            rows: 1,
                        };
                        self.vram_dma_source = self.vram_dma_source.wrapping_add(16);
                        self.vram_dma_target = self.vram_dma_target.wrapping_add(16);
                        if self.vram_dma_len == 0 {
                            self.vram_dma_len = 0x7F;
                            self.dma_type = DmaType::Idle;
                        } else {
                            self.vram_dma_len = self.vram_dma_len - 1;
                        }
                        (clock - 8, false, work)
                    } else {
                        (clock, true, DmaWork::Rest)
                    }
                } else {
                    (clock, false, DmaWork::Rest)
                }
            }
            DmaType::Gdma => {
                let rows: u32 = self.vram_dma_len as u32 + 1;
                if clock > rows * 8 {
                    let work = DmaWork::Rows {
                        src: self.vram_dma_source,
                        dst: self.vram_dma_target,
                        rows: self.vram_dma_len + 1,
                    };
                    self.vram_dma_source = self.vram_dma_source.wrapping_add(16 * rows as u16);
                    self.vram_dma_target = self.vram_dma_target.wrapping_add(16 * rows as u16);
                    self.vram_dma_len = 0x7F;
                    self.dma_type = DmaType::Idle;
                    (clock - rows * 8, false, work)
                } else {
                    (clock, true, DmaWork::Rest)
                }
            }
        }
    }

    /// The FF46 value last written.
    pub fn read_oam(&self) -> (r: u8)
        ensures
            r == self.oma_base_adder,
    {
        self.oma_base_adder
    }

    /// Schedule the 160-byte OAM transfer from `val * 0x100`.
    pub fn write_oam(&mut self, val: u8)
        ensures
            *final(self) == (DmaManager {
                oma_base_adder: val,
                dma_type: DmaType::Oam,
                ..*old(self)
            }),
    {
        self.oma_base_adder = val;
        self.dma_type = DmaType::Oam;
    }

    /// Read one of the VRAM-DMA registers FF51-FF55; FF55 yields the length
    /// counter with bit 7 set while no transfer is active.
    pub fn read_vram_dma(&self, adder: u16) -> (r: u8)
        requires
            self.inv(),
            0xFF51 <= adder <= 0xFF55,
        ensures
            adder == 0xFF51 ==> r == self.vram_dma_source / 256,
            adder == 0xFF52 ==> r == self.vram_dma_source % 256,
            adder == 0xFF53 ==> r == self.vram_dma_target / 256,
            adder == 0xFF54 ==> r == self.vram_dma_target % 256,
            adder == 0xFF55 ==> r == self.vram_dma_len + (if self.dma_type is Idle {
                0x80 as int
            } else {
                0
            }),
    {
        if adder == 0xFF51 {
            crate::utils::get_u16_high(self.vram_dma_source)
        } else if adder == 0xFF52 {
            crate::utils::get_u16_low(self.vram_dma_source)
        } else if adder == 0xFF53 {
            crate::utils::get_u16_high(self.vram_dma_target)
        } else if adder == 0xFF54 {
            crate::utils::get_u16_low(self.vram_dma_target)
        } else {
            self.vram_dma_len + (if matches!(self.dma_type, DmaType::Idle) { 0x80u8 } else { 0 })
        }
    }

    /// Write one of the VRAM-DMA registers FF51-FF55. The source low byte
    /// and target low byte keep only their high nibble; the target high
    /// byte is forced into the VRAM range. Writing FF55 starts a
    /// general-purpose transfer (bit 7 clear) or an H-blank transfer (bit 7
    /// set); bit 7 written clear during an H-blank transfer aborts it.
    pub fn write_vram_dma(&mut self, adder: u16, val: u8)
        requires
            0xFF51 <= adder <= 0xFF55,
            old(self).inv(),
        ensures
            final(self).inv(),
            adder == 0xFF51 ==> *final(self) == (DmaManager {
                vram_dma_source: (val * 256 + old(self).vram_dma_source % 256) as u16,
                ..*old(self)
            }),
            adder == 0xFF52 ==> *final(self) == (DmaManager {
                vram_dma_source: (old(self).vram_dma_source - old(self).vram_dma_source % 256 + (
                val - val % 16)) as u16,
                ..*old(self)
            }),
            adder == 0xFF53 ==> *final(self) == (DmaManager {
                vram_dma_target: ((0x80 + val % 32) * 256 + old(self).vram_dma_target % 256) as u16,
                ..*old(self)
            }),
            adder == 0xFF54 ==> *final(self) == (DmaManager {
                vram_dma_target: (old(self).vram_dma_target - old(self).vram_dma_target % 256 + (
                val - val % 16)) as u16,
                ..*old(self)
            }),
            adder == 0xFF55 ==> *final(self) == (DmaManager {
                vram_dma_len: (val % 128) as u8,
                dma_type: if old(self).dma_type is Hdma && val / 128 == 0 {
                    DmaType::Idle
                } else if val / 128 == 0 {
                    DmaType::Gdma
                } else {
                    DmaType::Hdma
                },
                ..*old(self)
            }),
    {
        if adder == 0xFF51 {
            self.vram_dma_source = (val as u16) * 256 + self.vram_dma_source % 256;
        } else if adder == 0xFF52 {
            self.vram_dma_source = self.vram_dma_source - self.vram_dma_source % 256 + ((val - val
                % 16) as u16);
        } else if adder == 0xFF53 {
            self.vram_dma_target = (0x80 + (val as u16) % 32) * 256 + self.vram_dma_target % 256;
        } else if adder == 0xFF54 {
            self.vram_dma_target = self.vram_dma_target - self.vram_dma_target % 256 + ((val - val
                % 16) as u16);
        } else {
            self.vram_dma_len = val % 128;
            if matches!(self.dma_type, DmaType::Hdma) && val / 128 == 0 {
                self.dma_type = DmaType::Idle;
            } else if val / 128 == 0 {
                self.dma_type = DmaType::Gdma;
            } else {
                self.dma_type = DmaType::Hdma;
            }
        }
    }
}

impl IoDevice for DmaManager {
    open spec fn inv(&self) -> bool {
        self.vram_dma_len <= 0x7F
    }

    open spec fn spec_read(v: DmaManager, addr: u16) -> MemRead {
        if addr == 0xFF46 {
            MemRead::Read(v.oma_base_adder)
        } else if addr == 0xFF51 {
            MemRead::Read((v.vram_dma_source / 256) as u8)
        } else if addr == 0xFF52 {
            MemRead::Read((v.vram_dma_source % 256) as u8)
        } else if addr == 0xFF53 {
            MemRead::Read((v.vram_dma_target / 256) as u8)
        } else if addr == 0xFF54 {
            MemRead::Read((v.vram_dma_target % 256) as u8)
        } else if addr == 0xFF55 {
            MemRead::Read(
                (v.vram_dma_len + if v.dma_type is Idle { 0x80 as int } else { 0 }) as u8,
            )
        } else {
            MemRead::Ignore
        }
    }

    open spec fn spec_write(v: DmaManager, addr: u16, value: u8) -> DmaManager {
        if addr == 0xFF46 {
            DmaManager { oma_base_adder: value, dma_type: DmaType::Oam, ..v }
        } else if addr == 0xFF51 {
            DmaManager { vram_dma_source: (value * 256 + v.vram_dma_source % 256) as u16, ..v }
        } else if addr == 0xFF52 {
            DmaManager {
                vram_dma_source: (v.vram_dma_source - v.vram_dma_source % 256 + (value - value
                    % 16)) as u16,
                ..v
            }
        } else if addr == 0xFF53 {
            DmaManager {
                vram_dma_target: ((0x80 + value % 32) * 256 + v.vram_dma_target % 256) as u16,
                ..v
            }
        } else if addr == 0xFF54 {
            DmaManager {
                vram_dma_target: (v.vram_dma_target - v.vram_dma_target % 256 + (value - value
                    % 16)) as u16,
                ..v
            }
        } else if addr == 0xFF55 {
            DmaManager {
                vram_dma_len: (value % 128) as u8,
                dma_type: if v.dma_type is Hdma && value / 128 == 0 {
                    DmaType::Idle
                } else if value / 128 == 0 {
                    DmaType::Gdma
                } else {
                    DmaType::Hdma
                },
                ..v
            }
        } else {
            v
        }
    }

    open spec fn spec_handles_write(v: DmaManager, addr: u16, value: u8) -> bool {
        addr == 0xFF46 || (0xFF51 <= addr <= 0xFF55)
    }

    fn read_byte(&self, addr: u16) -> (r: MemRead) {
        if addr == 0xFF46 {
            MemRead::Read(self.read_oam())
        } else if 0xFF51 <= addr && addr <= 0xFF55 {
            MemRead::Read(self.read_vram_dma(addr))
        } else {
            MemRead::Ignore
        }
    }

    fn write_byte(&mut self, addr: u16, value: u8) -> (r: MemWrite) {
        if addr == 0xFF46 {
            self.write_oam(value);
            MemWrite::Write
        } else if 0xFF51 <= addr && addr <= 0xFF55 {
            self.write_vram_dma(addr, value);
            MemWrite::Write
        } else {
            MemWrite::Ignore
        }
    }
}

} // verus!
