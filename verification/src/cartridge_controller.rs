//! The cartridge: ROM banks, optional external RAM behind a bank-switching
//! controller, the boot-ROM overlay, and the header checksum taken at load.

pub mod mbc1;
pub mod rom_only;

use vstd::prelude::*;

use crate::cartridge_controller::mbc1::Mbc1;
use crate::cartridge_controller::rom_only::RomOnly;
use crate::emulator::GameBoyMode;
use crate::mmu::{IoDevice, MemRead, MemWrite};

verus! {

pub const CARTRIDGE_TYPE_ADDER: usize = 0x0147;

/// Why a ROM image is rejected at load.
#[derive(Clone, Copy, Debug, PartialEq, Eq, Structural)]
pub enum CartridgeError {
    /// The header checksum does not match byte 0x014D and bad checksums are
    /// not allowed.
    BadChecksum,
    /// Byte 0x0147 names a bank-switching controller this core does not
    /// support.
    UnsupportedCartridgeType,
}

/// A bank-switching controller behind the cartridge slot. Its register
/// behaviour is stated over its mathematical view.
pub trait Cartridge: View where Self: Sized {
    /// Well-formedness of the controller's state.
    spec fn inv(&self) -> bool;

    /// What the controller answers to a read of `addr`.
    spec fn spec_read(v: Self::V, addr: u16) -> MemRead;

    /// The controller's state after a write of `value` to `addr`.
    spec fn spec_write(v: Self::V, addr: u16, value: u8) -> Self::V;

    /// Whether the controller accepts a write of `value` to `addr`.
    spec fn spec_handles_write(v: Self::V, addr: u16, value: u8) -> bool;

    fn read_byte(&self, addr: u16) -> (r: MemRead)
        requires
            self.inv(),
        ensures
            r == Self::spec_read(self@, addr),
    ;

    fn write_byte(&mut self, addr: u16, value: u8) -> (r: MemWrite)
        requires
            old(self).inv(),
        ensures
            final(self)@ == Self::spec_write(old(self)@, addr, value),
            final(self).inv(),
            r is Write <==> Self::spec_handles_write(old(self)@, addr, value),
    ;
}

/// The controller variants this core supports, as a tagged union.
pub enum CartridgeKind {
    RomOnly(RomOnly),
    Mbc1(Mbc1),
}

/// A cartridge controller's state as mathematical values.
#[verifier::ext_equal]
pub ghost enum CartridgeKindView {
    RomOnly(Seq<u8>),
    Mbc1(<Mbc1 as View>::V),
}

pub struct CartridgeController {
    pub cartridge: CartridgeKind,
    pub use_boot_rom: bool,
    pub game_boy_mode: GameBoyMode,
    pub boot_rom: Vec<u8>,
}

#[verifier::ext_equal]
pub ghost struct CartridgeControllerView {
    pub cartridge: CartridgeKindView,
    pub use_boot_rom: bool,
    pub game_boy_mode: GameBoyMode,
    pub boot_rom: Seq<u8>,
}

impl View for CartridgeController {
    type V = CartridgeControllerView;

    open spec fn view(&self) -> CartridgeControllerView {
        CartridgeControllerView {
            cartridge: match self.cartridge {
                CartridgeKind::RomOnly(c) => CartridgeKindView::RomOnly(c@),
                CartridgeKind::Mbc1(c) => CartridgeKindView::Mbc1(c@),
            },
            use_boot_rom: self.use_boot_rom,
            game_boy_mode: self.game_boy_mode,
            boot_rom: self.boot_rom@,
        }
    }
}

/// The running header sum over the first `n` bytes of the checksum range
/// 0x0134-0x014C: each byte is subtracted and the sum decremented once more.
pub open spec fn spec_header_checksum(rom: Seq<u8>, n: nat) -> u8
    decreases n,
{
    if n == 0 {
        0
    } else {
        let prev = spec_header_checksum(rom, (n - 1) as nat);
        ((prev + 512 - rom[0x134 + n - 1] - 1) % 256) as u8
    }
}

/// Subtract-and-decrement over the header bytes 0x0134-0x014C.
pub fn calc_checksum(rom: &Vec<u8>) -> (r: u8)
    requires
        rom@.len() >= 0x8000,
    ensures
        r == spec_header_checksum(rom@, 0x19),
{
    let mut sum: u8 = 0;
    let mut i: usize = 0x134;
    while i < 0x14D
        invariant
            rom@.len() >= 0x8000,
            0x134 <= i <= 0x14D,
            sum == spec_header_checksum(rom@, (i - 0x134) as nat),
        decreases 0x14D - i,
    {
        sum = (((sum as u32) + 512 - (rom[i] as u32) - 1) % 256) as u8;
        i = i + 1;
    }
    sum
}

impl CartridgeKind {
    /// Well-formedness of whichever controller is mounted.
    pub open spec fn inv(&self) -> bool {
        match self {
            CartridgeKind::RomOnly(c) => c.inv(),
            CartridgeKind::Mbc1(c) => c.inv(),
        }
    }
}

impl CartridgeKindView {
    /// What the mounted controller answers to a read of `addr`.
    pub open spec fn spec_read(self, addr: u16) -> MemRead {
        match self {
            CartridgeKindView::RomOnly(v) => RomOnly::spec_read(v, addr),
            CartridgeKindView::Mbc1(v) => Mbc1::spec_read(v, addr),
        }
    }

    /// The mounted controller's state after a write of `value` to `addr`.
    pub open spec fn spec_write(self, addr: u16, value: u8) -> CartridgeKindView {
        match self {
            CartridgeKindView::RomOnly(v) => CartridgeKindView::RomOnly(
                RomOnly::spec_write(v, addr, value),
            ),
            CartridgeKindView::Mbc1(v) => CartridgeKindView::Mbc1(Mbc1::spec_write(v, addr, value)),
        }
    }

    /// Whether the mounted controller accepts the write.
    pub open spec fn spec_handles_write(self, addr: u16, value: u8) -> bool {
        match self {
            CartridgeKindView::RomOnly(v) => RomOnly::spec_handles_write(v, addr, value),
            CartridgeKindView::Mbc1(v) => Mbc1::spec_handles_write(v, addr, value),
        }
    }
}

impl CartridgeControllerView {
    /// Whether `addr` lies in the boot-ROM overlay for the current model:
    /// 0x0000-0x00FF always, plus 0x0200-0x08FF in Color mode.
    pub open spec fn spec_in_boot_rom(self, addr: u16) -> bool {
        match self.game_boy_mode {
            GameBoyMode::Color => addr < 0x100 || (0x200 <= addr < 0x900),
            GameBoyMode::Classic => addr < 0x100,
        }
    }
}

impl CartridgeController {
    /// Mount the controller named by header byte 0x0147, verify the header
    /// checksum (unless `allow_bad_checksum`), and start with the boot-ROM
    /// overlay active. The boot image must match the chosen model: 0x100
    /// bytes for Classic, 0x900 for Color.
    pub fn new(
        rom: Vec<u8>,
        boot_rom: Vec<u8>,
        game_boy_mode: GameBoyMode,
        allow_bad_checksum: bool,
    ) -> (r: Result<CartridgeController, CartridgeError>)
        requires
            rom@.len() >= 0x8000,
            boot_rom@.len() == (if game_boy_mode is Color { 0x900 as int } else { 0x100 }),
        ensures
            match r {
                Ok(c) => {
                    &&& c.inv()
                    &&& c@.use_boot_rom
                    &&& c@.game_boy_mode == game_boy_mode
                    &&& c@.boot_rom == boot_rom@
                    &&& (allow_bad_checksum || spec_header_checksum(rom@, 0x19) == rom@[0x14D])
                    &&& match c@.cartridge {
                        CartridgeKindView::RomOnly(v) => rom@[0x147] == 0 && v == rom@,
                        CartridgeKindView::Mbc1(v) => 1 <= rom@[0x147] <= 3 && v.rom == rom@
                            && v.ram =~= Seq::new(0x8000, |i: int| 0u8) && v.rom_bank == 1
                            && v.ram_bank == 0 && !v.ram_enable && !v.ram_select,
                    }
                },
                Err(CartridgeError::BadChecksum) => !allow_bad_checksum
                    && spec_header_checksum(rom@, 0x19) != rom@[0x14D],
                Err(CartridgeError::UnsupportedCartridgeType) => rom@[0x147] > 3 && (
                allow_bad_checksum || spec_header_checksum(rom@, 0x19) == rom@[0x14D]),
            },
    {
        let sum = calc_checksum(&rom);
        if sum != rom[0x14D] && !allow_bad_checksum {
            return Err(CartridgeError::BadChecksum);
        }

        let cartridge_type = rom[CARTRIDGE_TYPE_ADDER];
        let cartridge: CartridgeKind = if RomOnly::probe_cartridge(cartridge_type) {
            CartridgeKind::RomOnly(RomOnly::new(rom))
        } else if Mbc1::probe_cartridge(cartridge_type) {
            CartridgeKind::Mbc1(Mbc1::new(rom))
        } else {
            return Err(CartridgeError::UnsupportedCartridgeType);
        };

        Ok(CartridgeController { cartridge, use_boot_rom: true, game_boy_mode, boot_rom })
    }
}

impl IoDevice for CartridgeController {
    open spec fn inv(&self) -> bool {
        &&& self.cartridge.inv()
        &&& self.boot_rom@.len() == (if self.game_boy_mode is Color {
            0x900 as int
        } else {
            0x100
        })
    }

    open spec fn spec_read(v: CartridgeControllerView, addr: u16) -> MemRead {
        if v.use_boot_rom && v.spec_in_boot_rom(addr) {
            MemRead::Read(v.boot_rom[addr as int])
        } else {
            v.cartridge.spec_read(addr)
        }
    }

    open spec fn spec_write(
        v: CartridgeControllerView,
        addr: u16,
        value: u8,
    ) -> CartridgeControllerView {
        if addr == 0xFF50 {
            CartridgeControllerView { use_boot_rom: false, ..v }
        } else {
            CartridgeControllerView { cartridge: v.cartridge.spec_write(addr, value), ..v }
        }
    }

    open spec fn spec_handles_write(v: CartridgeControllerView, addr: u16, value: u8) -> bool {
        addr == 0xFF50 || v.cartridge.spec_handles_write(addr, value)
    }

    fn read_byte(&self, addr: u16) -> (r: MemRead) {
        let in_boot = match self.game_boy_mode {
            GameBoyMode::Color => addr < 0x100 || (0x200 <= addr && addr < 0x900),
            GameBoyMode::Classic => addr < 0x100,
        };
        if self.use_boot_rom && in_boot {
            MemRead::Read(self.boot_rom[addr as usize])
        } else {
            match &self.cartridge {
                CartridgeKind::RomOnly(c) => c.read_byte(addr),
                CartridgeKind::Mbc1(c) => c.read_byte(addr),
            }
        }
    }

    fn write_byte(&mut self, addr: u16, value: u8) -> (r: MemWrite) {
        if addr == 0xFF50 {
            self.use_boot_rom = false;
            MemWrite::Write
        } else {
            match &mut self.cartridge {
                CartridgeKind::RomOnly(c) => c.write_byte(addr, value),
                CartridgeKind::Mbc1(c) => c.write_byte(addr, value),
            }
        }
    }
}

} // verus!
