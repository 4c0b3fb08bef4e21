//! The memory bus: devices register for inclusive address ranges and the bus
//! routes each byte or word access to them in registration order.
//!
//! On read, the first device that answers `MemRead::Read` wins and a read
//! that falls through every device returns 0 (with the speed-switch register
//! at FF4D stubbed to 0xFF). On write, every registered device covering the
//! address is notified in order. Words are little-endian. While an OAM DMA
//! transfer is in flight, processor reads outside high RAM see the open bus,
//! approximated as 0xFF.

use vstd::prelude::*;

use crate::apu::Apu;
use crate::cartridge_controller::CartridgeController;
use crate::ic::Ic;
use crate::joypad::Joypad;
use crate::ppu::dma::{DmaManager, DmaType, DmaWork};
use crate::ppu::Ppu;
use crate::ram::Ram;
use crate::timer::Timer;

verus! {

/// A device's answer to a read request.
pub enum MemRead {
    /// The device handled the read and gives the value to return.
    Read(u8),
    /// The device does not own this read.
    Ignore,
}

/// A device's answer to a write request.
pub enum MemWrite {
    /// The device accepted the write.
    Write,
    /// The device does not own this write.
    Ignore,
}

/// A device that can be mapped onto the bus. Its register behaviour is
/// stated over its mathematical view.
pub trait IoDevice: View where Self: Sized {
    /// Well-formedness of the device's state.
    spec fn inv(&self) -> bool;

    /// What the device answers to a read of `addr`.
    spec fn spec_read(v: Self::V, addr: u16) -> MemRead;

    /// The device's state after a write of `value` to `addr`.
    spec fn spec_write(v: Self::V, addr: u16, value: u8) -> Self::V;

    /// Whether the device accepts a write of `value` to `addr`.
    spec fn spec_handles_write(v: Self::V, addr: u16, value: u8) -> bool;

    fn read_byte(&self, addr: u16) -> (r: MemRead)
        requires
            self.inv(),
        ensures
            r == Self::spec_read(self@, addr),
    ;

    fn write_byte(&mut self, addr: u16, value: u8) -> (r: MemWrite)
        requires
            old(self).inv(),
        ensures
            final(self)@ == Self::spec_write(old(self)@, addr, value),
            final(self).inv(),
            r is Write <==> Self::spec_handles_write(old(self)@, addr, value),
    ;
}

/// Which owned device an address-range registration points at.
#[derive(Clone, Copy, Debug)]
pub enum DeviceId {
    Cartridge,
    Ppu,
    Dma,
    Ic,
    Joypad,
    Timer,
    Ram,
    Apu,
}

/// One registration: an inclusive address range and its owning device.
#[derive(Clone, Copy, Debug)]
pub struct MapEntry {
    pub lo: u16,
    pub hi: u16,
    pub device: DeviceId,
}

pub struct Mmu {
    pub entries: Vec<MapEntry>,
    pub cartridge: CartridgeController,
    pub ppu: Ppu,
    pub dma: DmaManager,
    pub ic: Ic,
    pub joypad: Joypad,
    pub timer: Timer,
    pub ram: Ram,
    pub apu: Apu,
}

/// The bus and its devices as mathematical values.
#[verifier::ext_equal]
pub ghost struct MmuView {
    pub entries: Seq<MapEntry>,
    pub cartridge: <CartridgeController as View>::V,
    pub ppu: <Ppu as View>::V,
    pub dma: DmaManager,
    pub ic: Ic,
    pub joypad: Joypad,
    pub timer: Timer,
    pub ram: <Ram as View>::V,
    pub apu: <Apu as View>::V,
}

impl View for Mmu {
    type V = MmuView;

    open spec fn view(&self) -> MmuView {
        MmuView {
            entries: self.entries@,
            cartridge: self.cartridge@,
            ppu: self.ppu@,
            dma: self.dma@,
            ic: self.ic@,
            joypad: self.joypad@,
            timer: self.timer@,
            ram: self.ram@,
            apu: self.apu@,
        }
    }
}

impl MmuView {
    /// What the device behind `id` answers to a read of `addr`.
    pub open spec fn spec_device_read(self, id: DeviceId, addr: u16) -> MemRead {
        match id {
            DeviceId::Cartridge => CartridgeController::spec_read(self.cartridge, addr),
            DeviceId::Ppu => Ppu::spec_read(self.ppu, addr),
            DeviceId::Dma => DmaManager::spec_read(self.dma, addr),
            DeviceId::Ic => Ic::spec_read(self.ic, addr),
            DeviceId::Joypad => Joypad::spec_read(self.joypad, addr),
            DeviceId::Timer => Timer::spec_read(self.timer, addr),
            DeviceId::Ram => Ram::spec_read(self.ram, addr),
            DeviceId::Apu => Apu::spec_read(self.apu, addr),
        }
    }

    /// The bus after the device behind `id` saw a write of `value` to `addr`.
    pub open spec fn spec_device_write(self, id: DeviceId, addr: u16, value: u8) -> MmuView {
        match id {
            DeviceId::Cartridge => MmuView {
                cartridge: CartridgeController::spec_write(self.cartridge, addr, value),
                ..self
            },
            DeviceId::Ppu => MmuView { ppu: Ppu::spec_write(self.ppu, addr, value), ..self },
            DeviceId::Dma => MmuView { dma: DmaManager::spec_write(self.dma, addr, value), ..self },
            DeviceId::Ic => MmuView { ic: Ic::spec_write(self.ic, addr, value), ..self },
            DeviceId::Joypad => MmuView {
                joypad: Joypad::spec_write(self.joypad, addr, value),
                ..self
            },
            DeviceId::Timer => MmuView { timer: Timer::spec_write(self.timer, addr, value), ..self },
            DeviceId::Ram => MmuView { ram: Ram::spec_write(self.ram, addr, value), ..self },
            DeviceId::Apu => MmuView { apu: Apu::spec_write(self.apu, addr, value), ..self },
        }
    }

    /// The value a read of `addr` yields once the registrations from index
    /// `i` on are queried: the first device that answers wins, and a read
    /// that falls through returns the FF4D stub or 0.
    pub open spec fn spec_read_from(self, i: int, addr: u16) -> u8
        decreases self.entries.len() - i,
    {
        if i < 0 || i >= self.entries.len() {
            if addr == 0xFF4D {
                0xFF
            } else {
                0
            }
        } else {
            let e = self.entries[i];
            if e.lo <= addr && addr <= e.hi {
                match self.spec_device_read(e.device, addr) {
                    MemRead::Read(v) => v,
                    MemRead::Ignore => self.spec_read_from(i + 1, addr),
                }
            } else {
                self.spec_read_from(i + 1, addr)
            }
        }
    }

    /// What a processor read of `addr` returns: the open bus while an OAM
    /// DMA transfer is in flight (except in high RAM), else the dispatched
    /// value.
    pub open spec fn spec_read(self, addr: u16) -> u8 {
        if self.dma.dma_type is Oam && !(0xFF80 <= addr <= 0xFFFE) {
            0xFF
        } else {
            self.spec_read_from(0, addr)
        }
    }

    /// The bus state after the registrations from index `i` on saw a write
    /// of `value` to `addr`, each covering device notified in order.
    pub open spec fn spec_write_from(self, i: int, addr: u16, value: u8) -> MmuView
        decreases self.entries.len() - i,
    {
        if i < 0 || i >= self.entries.len() {
            self
        } else {
            let e = self.entries[i];
            if e.lo <= addr && addr <= e.hi {
                self.spec_device_write(e.device, addr, value).spec_write_from(i + 1, addr, value)
            } else {
                self.spec_write_from(i + 1, addr, value)
            }
        }
    }

    /// The bus state after a write of `value` to `addr`.
    pub open spec fn spec_write(self, addr: u16, value: u8) -> MmuView {
        self.spec_write_from(0, addr, value)
    }

    /// Where a DMA byte lands: OAM and the selected VRAM bank take it
    /// directly (the engine owns the bus while it copies); other addresses
    /// take nothing.
    pub open spec fn spec_dma_put(self, addr: u16, value: u8) -> MmuView {
        if 0xFE00 <= addr <= 0xFE9F {
            MmuView {
                ppu: crate::ppu::PpuView {
                    oam: self.ppu.oam.update(addr - 0xFE00, value),
                    ..self.ppu
                },
                ..self
            }
        } else if 0x8000 <= addr <= 0x9FFF {
            MmuView {
                ppu: crate::ppu::PpuView {
                    vram: self.ppu.vram.update(
                        self.ppu.selected_vram_bank,
                        self.ppu.vram[self.ppu.selected_vram_bank].update(addr - 0x8000, value),
                    ),
                    ..self.ppu
                },
                ..self
            }
        } else {
            self
        }
    }

    /// The bus after `n` bytes are copied one at a time from `src` to
    /// `dst` (both stepping upward, wrapping at the top of the address
    /// space): each byte is read off the raw bus and lands per
    /// `spec_dma_put`, so a source overlapping the destination sees the
    /// earlier writes.
    pub open spec fn spec_dma_copy(self, src: u16, dst: u16, n: nat) -> MmuView
        decreases n,
    {
        if n == 0 {
            self
        } else {
            let b = self.spec_read_from(0, src);
            self.spec_dma_put(dst, b).spec_dma_copy(
                ((src + 1) % 0x10000) as u16,
                ((dst + 1) % 0x10000) as u16,
                (n - 1) as nat,
            )
        }
    }

    /// The bus after the 160-byte OAM transfer from page `base`.
    pub open spec fn spec_oam_copy(self, base: u8) -> MmuView {
        self.spec_dma_copy((base * 0x100) as u16, 0xFE00, 0xA0)
    }

    /// The bus after `rows` 16-byte rows are copied from `src` to `dst`.
    pub open spec fn spec_rows_copy(self, src: u16, dst: u16, rows: nat) -> MmuView {
        self.spec_dma_copy(src, dst, rows * 16)
    }

}

impl Mmu {
    /// All owned devices are well formed.
    pub open spec fn inv(&self) -> bool {
        &&& self.cartridge.inv()
        &&& self.ppu.inv()
        &&& self.dma.inv()
        &&& self.ic.inv()
        &&& self.joypad.inv()
        &&& self.timer.inv()
        &&& self.ram.inv()
        &&& self.apu.inv()
    }

    /// A bus over the given devices with no registrations yet.
    pub fn new(
        cartridge: CartridgeController,
        ppu: Ppu,
        dma: DmaManager,
        ic: Ic,
        joypad: Joypad,
        timer: Timer,
        ram: Ram,
        apu: Apu,
    ) -> (r: Mmu)
        ensures
            r@ == (MmuView {
                entries: Seq::<MapEntry>::empty(),
                cartridge: cartridge@,
                ppu: ppu@,
                dma: dma@,
                ic: ic@,
                joypad: joypad@,
                timer: timer@,
                ram: ram@,
                apu: apu@,
            }),
            r.inv() <== cartridge.inv() && ppu.inv() && dma.inv() && ic.inv() && joypad.inv()
                && timer.inv() && ram.inv() && apu.inv(),
    {
        let r = Mmu {
            entries: Vec::new(),
            cartridge,
            ppu,
            dma,
            ic,
            joypad,
            timer,
            ram,
            apu,
        };
        proof {
            assert(r@.entries =~= Seq::<MapEntry>::empty());
        }
        r
    }

    /// Register a device for the inclusive address range `range`.
    pub fn register_device(&mut self, range: (u16, u16), device: DeviceId)
        ensures
            final(self)@ == (MmuView {
                entries: old(self)@.entries.push(
                    MapEntry { lo: range.0, hi: range.1, device },
                ),
                ..old(self)@
            }),
            final(self).inv() == old(self).inv(),
    {
        let (lo, hi) = range;
        self.entries.push(MapEntry { lo, hi, device });
    }

    /// Dispatch a read to the registered devices, skipping the open-bus
    /// gate; the DMA engine itself reads through this path.
    #[verifier::rlimit(100)]
    pub(crate) fn read_byte_raw(&self, addr: u16) -> (r: u8)
        requires
            self.inv(),
        ensures
            r == self@.spec_read_from(0, addr),
    {
        let n = self.entries.len();
        for i in 0..n
            invariant
                n == self.entries@.len(),
                self.inv(),
                self@.spec_read_from(0, addr) == self@.spec_read_from(i as int, addr),
        {
            let e = self.entries[i];
            if e.lo <= addr && addr <= e.hi {
                let ans = match e.device {
                    DeviceId::Cartridge => self.cartridge.read_byte(addr),
                    DeviceId::Ppu => self.ppu.read_byte(addr),
                    DeviceId::Dma => self.dma.read_byte(addr),
                    DeviceId::Ic => self.ic.read_byte(addr),
                    DeviceId::Joypad => self.joypad.read_byte(addr),
                    DeviceId::Timer => self.timer.read_byte(addr),
                    DeviceId::Ram => self.ram.read_byte(addr),
                    DeviceId::Apu => self.apu.read_byte(addr),
                };
                match ans {
                    MemRead::Read(v) => {
                        return v;
                    }
                    MemRead::Ignore => {}
                }
            }
        }
        if addr == 0xFF4D {
            0xFF
        } else {
            0
        }
    }

    /// A processor-visible byte read.
    pub fn read_byte(&self, addr: u16) -> (r: u8)
        requires
            self.inv(),
        ensures
            r == self@.spec_read(addr),
    {
        if matches!(self.dma.dma_type, DmaType::Oam) && !(0xFF80 <= addr && addr <= 0xFFFE) {
            0xFF
        } else {
            self.read_byte_raw(addr)
        }
    }

    /// A byte write, notifying every covering device in registration order.
    #[verifier::rlimit(100)]
    pub fn write_byte(&mut self, addr: u16, value: u8)
        requires
            old(self).inv(),
        ensures
            final(self)@ == old(self)@.spec_write(addr, value),
            final(self).inv(),
    {
        let n = self.entries.len();
        for i in 0..n
            invariant
                n == self.entries@.len(),
                self@.entries == old(self)@.entries,
                self.inv(),
                old(self)@.spec_write(addr, value) == self@.spec_write_from(i as int, addr, value),
        {
            let e = self.entries[i];
            if e.lo <= addr && addr <= e.hi {
                self.write_dispatch(e.device, addr, value);
            }
        }
    }

    /// Hand a write to one owned device.
    #[verifier::rlimit(100)]
    #[verifier::spinoff_prover]
    fn write_dispatch(&mut self, device: DeviceId, addr: u16, value: u8)
        requires
            old(self).inv(),
        ensures
            final(self)@ == old(self)@.spec_device_write(device, addr, value),
            final(self).inv(),
    {
        match device {
            DeviceId::Cartridge => {
                self.cartridge.write_byte(addr, value);
            }
            DeviceId::Ppu => {
                self.ppu.write_byte(addr, value);
            }
            DeviceId::Dma => {
                self.dma.write_byte(addr, value);
            }
            DeviceId::Ic => {
                self.ic.write_byte(addr, value);
            }
            DeviceId::Joypad => {
                self.joypad.write_byte(addr, value);
            }
            DeviceId::Timer => {
                self.timer.write_byte(addr, value);
            }
            DeviceId::Ram => {
                self.ram.write_byte(addr, value);
            }
            DeviceId::Apu => {
                self.apu.write_byte(addr, value);
            }
        }
    }


    /// Land one DMA byte: directly into OAM or the selected VRAM bank,
    /// bypassing the mode gates that apply to processor writes.
    fn dma_put(&mut self, addr: u16, value: u8)
        requires
            old(self).inv(),
        ensures
            final(self).inv(),
            final(self)@ == old(self)@.spec_dma_put(addr, value),
    {
        if 0xFE00 <= addr && addr <= 0xFE9F {
            self.ppu.write_oma_direct(addr, value);
        } else if 0x8000 <= addr && addr <= 0x9FFF {
            self.ppu.write_vram_direct(addr, value);
        }
    }

    /// Carry the bytes of one DMA decision: nothing, the 160-byte OAM
    /// transfer, or a run of 16-byte rows, copied byte by byte off the raw
    /// bus into OAM or VRAM.
    pub fn perform_dma_work(&mut self, work: DmaWork)
        requires
            old(self).inv(),
        ensures
            final(self).inv(),
            work is Rest ==> final(self)@ == old(self)@,
            work matches DmaWork::OamCopy(base) ==> final(self)@ == old(self)@.spec_oam_copy(base),
            work matches DmaWork::Rows { src, dst, rows } ==> final(self)@
                == old(self)@.spec_rows_copy(src, dst, rows as nat),
    {
        match work {
            DmaWork::Rest => {}
            DmaWork::OamCopy(base) => {
                let src = (base as u16) * 0x100;
                self.dma_copy(src, 0xFE00, 0xA0);
            }
            DmaWork::Rows { src, dst, rows } => {
                proof {
                    assert(rows as nat * 16 <= 0x1000) by (nonlinear_arith)
                        requires
                            rows <= 0x100,
                    ;
                }
                self.dma_copy(src, dst, (rows as u16) * 16);
            }
        }
    }

    /// Copy `n` bytes from `src` to `dst`, both stepping upward and
    /// wrapping at the top of the address space.
    fn dma_copy(&mut self, src: u16, dst: u16, n: u16)
        requires
            old(self).inv(),
        ensures
            final(self).inv(),
            final(self)@ == old(self)@.spec_dma_copy(src, dst, n as nat),
    {
        let mut cur_src = src;
        let mut cur_dst = dst;
        let mut i: u16 = 0;
        while i < n
            invariant
                self.inv(),
                i <= n,
                old(self)@.spec_dma_copy(src, dst, n as nat) == self@.spec_dma_copy(
                    cur_src,
                    cur_dst,
                    (n - i) as nat,
                ),
            decreases n - i,
        {
            let b = self.read_byte_raw(cur_src);
            self.dma_put(cur_dst, b);
            cur_src = cur_src.wrapping_add(1);
            cur_dst = cur_dst.wrapping_add(1);
            i = i + 1;
        }
    }

    /// A little-endian word read: the low byte at `addr`, the high byte at
    /// the following address (wrapping at the top of the address space).
    #[verifier::rlimit(100)]
    #[verifier::spinoff_prover]
    pub fn read_word(&self, addr: u16) -> (r: u16)
        requires
            self.inv(),
        ensures
            r == self@.spec_read(addr) + self@.spec_read(((addr + 1) % 0x10000) as u16) * 256,
            r % 256 == self@.spec_read(addr),
            r / 256 == self@.spec_read(((addr + 1) % 0x10000) as u16),
    {
        let lo = self.read_byte(addr);
        let hi = self.read_byte(addr.wrapping_add(1));
        crate::utils::build_u16(hi, lo)
    }

    /// A little-endian word write: the low byte first, then the high byte at
    /// the following address (wrapping at the top of the address space).
    #[verifier::rlimit(100)]
    #[verifier::spinoff_prover]
    pub fn write_word(&mut self, addr: u16, value: u16)
        requires
            old(self).inv(),
        ensures
            final(self)@ == old(self)@.spec_write(addr, (value % 256) as u8).spec_write(
                ((addr + 1) % 0x10000) as u16,
                (value / 256) as u8,
            ),
            final(self).inv(),
    {
        let lo = crate::utils::get_u16_low(value);
        let hi = crate::utils::get_u16_high(value);
        let ghost v0 = self@;
        self.write_byte(addr, lo);
        proof {
            assert(self@ == v0.spec_write(addr, (value % 256) as u8));
        }
        let ghost v1 = self@;
        let addr2 = addr.wrapping_add(1);
        self.write_byte(addr2, hi);
        proof {
            assert(addr2 == ((addr + 1) % 0x10000) as u16);
            assert(self@ == v1.spec_write(addr2, (value / 256) as u8));
        }
    }
}

} // verus!
