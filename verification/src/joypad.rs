//! The joypad: FF00 bits 4 and 5 select the directional or the action bank
//! (active-low); held keys read as 0 in the low nibble. A key going down
//! raises the joypad interrupt.

use vstd::prelude::*;

use crate::hardware::{Key, KeyState};
use crate::ic::Irq;
use crate::mmu::{IoDevice, MemRead, MemWrite};

verus! {

#[derive(Clone, Copy, Debug, PartialEq, Eq, Structural)]
pub struct Joypad {
    /// The select byte last written to FF00 (only bits 4-7 are kept).
    pub select: u8,
    /// The low nibble computed at the last poll (1 bits mean released).
    pub pressed: u8,
    /// The key state handed in at the last poll.
    pub keys: KeyState,
}

/// The active-low low nibble of FF00 for the given select byte and keys:
/// bit 4 low selects the directional bank, else bit 5 low the action bank,
/// else all four bits read released.
pub open spec fn spec_joypad_nibble(select: u8, keys: KeyState) -> u8 {
    if select / 16 % 2 == 0 {
        ((if keys.right { 0 as int } else { 1 }) + (if keys.left { 0 as int } else { 2 })
            + (if keys.up { 0 as int } else { 4 }) + (if keys.down { 0 as int } else { 8 })) as u8
    } else if select / 32 % 2 == 0 {
        ((if keys.a { 0 as int } else { 1 }) + (if keys.b { 0 as int } else { 2 })
            + (if keys.select { 0 as int } else { 4 }) + (if keys.start {
            0 as int
        } else {
            8
        })) as u8
    } else {
        0x0F
    }
}

/// Whether the new nibble has a falling edge against the old one: some bit
/// of the low four that was released (1) reads held (0) now.
pub open spec fn spec_falling_edge(was: u8, now: u8) -> bool {
    ||| (was % 2 == 1 && now % 2 == 0)
    ||| (was / 2 % 2 == 1 && now / 2 % 2 == 0)
    ||| (was / 4 % 2 == 1 && now / 4 % 2 == 0)
    ||| (was / 8 % 2 == 1 && now / 8 % 2 == 0)
}

impl View for Joypad {
    type V = Joypad;

    open spec fn view(&self) -> Joypad {
        *self
    }
}

impl Joypad {
    /// Both banks deselected and every key reading released.
    pub fn new() -> (r: Joypad)
        ensures
            r == (Joypad { select: 0xF0, pressed: 0x0F, keys: KeyState::spec_none() }),
    {
        Joypad { select: 0xF0, pressed: 0x0F, keys: KeyState::new() }
    }

    /// The selected bank's nibble for the stored key state.
    fn check(&self) -> (r: u8)
        ensures
            r == spec_joypad_nibble(self.select, self.keys),
    {
        if self.select / 16 % 2 == 0 {
            (if self.keys.right { 0u8 } else { 1 }) + (if self.keys.left { 0u8 } else { 2 })
                + (if self.keys.up { 0u8 } else { 4 }) + (if self.keys.down { 0u8 } else { 8 })
        } else if self.select / 32 % 2 == 0 {
            (if self.keys.a { 0u8 } else { 1 }) + (if self.keys.b { 0u8 } else { 2 })
                + (if self.keys.select { 0u8 } else { 4 }) + (if self.keys.start { 0u8 } else { 8 })
        } else {
            0x0F
        }
    }

    /// Take the host's key state, and raise the joypad interrupt when a key
    /// of the selected bank went down since the last poll.
    pub fn poll(&mut self, keys: KeyState, irq: &mut Irq)
        ensures
            final(self).select == old(self).select,
            final(self).keys == keys,
            final(self).pressed == spec_joypad_nibble(old(self).select, keys),
            *final(irq) == (Irq {
                lines: crate::ic::Interrupts {
                    joypad: old(irq).lines.joypad || spec_falling_edge(
                        old(self).pressed,
                        spec_joypad_nibble(old(self).select, keys),
                    ),
                    ..old(irq).lines
                },
            }),
    {
        self.keys = keys;
        let now = self.check();
        let was = self.pressed;
        let edge = (was % 2 == 1 && now % 2 == 0) || (was / 2 % 2 == 1 && now / 2 % 2 == 0) || (was
            / 4 % 2 == 1 && now / 4 % 2 == 0) || (was / 8 % 2 == 1 && now / 8 % 2 == 0);
        if edge {
            irq.joypad(true);
        }
        self.pressed = now;
    }
}

impl IoDevice for Joypad {
    open spec fn inv(&self) -> bool {
        true
    }

    open spec fn spec_read(v: Joypad, addr: u16) -> MemRead {
        if addr == 0xFF00 {
            MemRead::Read(spec_joypad_nibble(v.select, v.keys))
        } else {
            MemRead::Ignore
        }
    }

    open spec fn spec_write(v: Joypad, addr: u16, value: u8) -> Joypad {
        if addr == 0xFF00 {
            Joypad { select: (value - value % 16) as u8, ..v }
        } else {
            v
        }
    }

    open spec fn spec_handles_write(v: Joypad, addr: u16, value: u8) -> bool {
        addr == 0xFF00
    }

    fn read_byte(&self, addr: u16) -> (r: MemRead) {
        if addr == 0xFF00 {
            MemRead::Read(self.check())
        } else {
            MemRead::Ignore
        }
    }

    fn write_byte(&mut self, addr: u16, value: u8) -> (r: MemWrite) {
        if addr == 0xFF00 {
            self.select = value - value % 16;
            MemWrite::Write
        } else {
            MemWrite::Ignore
        }
    }
}

} // verus!
