//! The interrupt controller: five request lines, five enable bits, and
//! priority arbitration. Request lines live at FF0F, enable bits at FFFF.
//! Service addresses are 0x40 (v-blank), 0x48 (LCD-stat), 0x50 (timer),
//! 0x58 (serial) and 0x60 (joypad), which is also the priority order.

use vstd::prelude::*;

use crate::mmu::{IoDevice, MemRead, MemWrite};

verus! {

pub const V_BLANK_INT: u8 = 0x40;

pub const LCD_STAT_INT: u8 = 0x48;

pub const TIMER_INT: u8 = 0x50;

pub const SERIAL_INT: u8 = 0x58;

pub const JOYPAD_INT: u8 = 0x60;

/// Five interrupt lines as one record; used both for the request register
/// and for the enable register.
#[derive(Clone, Copy, Debug, PartialEq, Eq, Structural)]
pub struct Interrupts {
    pub v_blank: bool,
    pub lcd_stat: bool,
    pub timer: bool,
    pub serial: bool,
    pub joypad: bool,
}

/// The five-line register byte: v-blank in bit 0 up to joypad in bit 4.
pub open spec fn spec_interrupts_byte(i: Interrupts) -> u8 {
    ((if i.v_blank { 1 as int } else { 0 }) + (if i.lcd_stat { 2 as int } else { 0 })
        + (if i.timer { 4 as int } else { 0 }) + (if i.serial { 8 as int } else { 0 })
        + (if i.joypad { 16 as int } else { 0 })) as u8
}

impl Interrupts {
    pub fn new() -> (r: Interrupts)
        ensures
            r == (Interrupts { v_blank: false, lcd_stat: false, timer: false, serial: false,
                joypad: false }),
    {
        Interrupts { v_blank: false, lcd_stat: false, timer: false, serial: false, joypad: false }
    }

    /// Load the five lines from the low five bits of a register write.
    pub fn set(&mut self, val: u8)
        ensures
            *final(self) == (Interrupts {
                v_blank: val % 2 == 1,
                lcd_stat: val / 2 % 2 == 1,
                timer: val / 4 % 2 == 1,
                serial: val / 8 % 2 == 1,
                joypad: val / 16 % 2 == 1,
            }),
    {
        self.v_blank = val % 2 == 1;
        self.lcd_stat = val / 2 % 2 == 1;
        self.timer = val / 4 % 2 == 1;
        self.serial = val / 8 % 2 == 1;
        self.joypad = val / 16 % 2 == 1;
    }

    /// Pack the five lines into a register byte.
    pub fn get(&self) -> (r: u8)
        ensures
            r == spec_interrupts_byte(*self),
    {
        (if self.v_blank { 1u8 } else { 0 }) + (if self.lcd_stat { 2u8 } else { 0 })
            + (if self.timer { 4u8 } else { 0 }) + (if self.serial { 8u8 } else { 0 })
            + (if self.joypad { 16u8 } else { 0 })
    }

    /// Whether any line is set.
    pub open spec fn spec_any(&self) -> bool {
        self.v_blank || self.lcd_stat || self.timer || self.serial || self.joypad
    }
}

/// A record of freshly raised interrupt requests. Subsystems raise their
/// lines into one of these while they advance; the controller merges it
/// into the live request register afterwards.
#[derive(Clone, Copy, Debug, PartialEq, Eq, Structural)]
pub struct Irq {
    pub lines: Interrupts,
}

impl Irq {
    pub fn new() -> (r: Irq)
        ensures
            r.lines == Interrupts::spec_none(),
    {
        Irq { lines: Interrupts::new() }
    }

    pub fn v_blank(&mut self, v: bool)
        ensures
            *final(self) == (Irq { lines: Interrupts { v_blank: v, ..old(self).lines } }),
    {
        self.lines.v_blank = v;
    }

    pub fn lcd_stat(&mut self, v: bool)
        ensures
            *final(self) == (Irq { lines: Interrupts { lcd_stat: v, ..old(self).lines } }),
    {
        self.lines.lcd_stat = v;
    }

    pub fn timer(&mut self, v: bool)
        ensures
            *final(self) == (Irq { lines: Interrupts { timer: v, ..old(self).lines } }),
    {
        self.lines.timer = v;
    }

    pub fn serial(&mut self, v: bool)
        ensures
            *final(self) == (Irq { lines: Interrupts { serial: v, ..old(self).lines } }),
    {
        self.lines.serial = v;
    }

    pub fn joypad(&mut self, v: bool)
        ensures
            *final(self) == (Irq { lines: Interrupts { joypad: v, ..old(self).lines } }),
    {
        self.lines.joypad = v;
    }
}

impl Interrupts {
    /// All five lines clear.
    pub open spec fn spec_none() -> Interrupts {
        Interrupts { v_blank: false, lcd_stat: false, timer: false, serial: false, joypad: false }
    }

    /// Line-wise disjunction of two records.
    pub open spec fn spec_or(a: Interrupts, b: Interrupts) -> Interrupts {
        Interrupts {
            v_blank: a.v_blank || b.v_blank,
            lcd_stat: a.lcd_stat || b.lcd_stat,
            timer: a.timer || b.timer,
            serial: a.serial || b.serial,
            joypad: a.joypad || b.joypad,
        }
    }
}

/// The interrupt controller: the enable register and the live request lines.
#[derive(Clone, Copy, Debug, PartialEq, Eq, Structural)]
pub struct Ic {
    pub enabled: Interrupts,
    pub line: Interrupts,
}

impl View for Ic {
    type V = Ic;

    open spec fn view(&self) -> Ic {
        *self
    }
}

impl Ic {
    /// The highest-priority line that is both requested and enabled, as its
    /// service address, in the order v-blank, LCD-stat, timer, serial,
    /// joypad.
    pub open spec fn spec_pending(&self) -> Option<u8> {
        if self.enabled.v_blank && self.line.v_blank {
            Some(V_BLANK_INT)
        } else if self.enabled.lcd_stat && self.line.lcd_stat {
            Some(LCD_STAT_INT)
        } else if self.enabled.timer && self.line.timer {
            Some(TIMER_INT)
        } else if self.enabled.serial && self.line.serial {
            Some(SERIAL_INT)
        } else if self.enabled.joypad && self.line.joypad {
            Some(JOYPAD_INT)
        } else {
            None
        }
    }

    /// The request lines after the pending line (if any) is consumed.
    pub open spec fn spec_consume_lines(&self) -> Interrupts {
        if self.enabled.v_blank && self.line.v_blank {
            Interrupts { v_blank: false, ..self.line }
        } else if self.enabled.lcd_stat && self.line.lcd_stat {
            Interrupts { lcd_stat: false, ..self.line }
        } else if self.enabled.timer && self.line.timer {
            Interrupts { timer: false, ..self.line }
        } else if self.enabled.serial && self.line.serial {
            Interrupts { serial: false, ..self.line }
        } else if self.enabled.joypad && self.line.joypad {
            Interrupts { joypad: false, ..self.line }
        } else {
            self.line
        }
    }

    pub fn new() -> (r: Ic)
        ensures
            r.enabled == Interrupts::spec_none(),
            r.line == Interrupts::spec_none(),
    {
        Ic { enabled: Interrupts::new(), line: Interrupts::new() }
    }

    /// A fresh request record for subsystems to raise lines into.
    pub fn get_requester(&self) -> (r: Irq)
        ensures
            r.lines == Interrupts::spec_none(),
    {
        Irq::new()
    }

    /// Merge freshly raised requests into the live request lines.
    pub fn merge_requests(&mut self, irq: &Irq)
        ensures
            *final(self) == (Ic { line: Interrupts::spec_or(old(self).line, irq.lines),
                ..*old(self) }),
    {
        self.line.v_blank = self.line.v_blank || irq.lines.v_blank;
        self.line.lcd_stat = self.line.lcd_stat || irq.lines.lcd_stat;
        self.line.timer = self.line.timer || irq.lines.timer;
        self.line.serial = self.line.serial || irq.lines.serial;
        self.line.joypad = self.line.joypad || irq.lines.joypad;
    }

    /// The pending interrupt's service address, leaving the request set.
    pub fn peek(&self) -> (r: Option<u8>)
        ensures
            r == self.spec_pending(),
    {
        if self.enabled.v_blank && self.line.v_blank {
            Some(V_BLANK_INT)
        } else if self.enabled.lcd_stat && self.line.lcd_stat {
            Some(LCD_STAT_INT)
        } else if self.enabled.timer && self.line.timer {
            Some(TIMER_INT)
        } else if self.enabled.serial && self.line.serial {
            Some(SERIAL_INT)
        } else if self.enabled.joypad && self.line.joypad {
            Some(JOYPAD_INT)
        } else {
            None
        }
    }

    /// The pending interrupt's service address, clearing its request line.
    pub fn consume(&mut self) -> (r: Option<u8>)
        ensures
            r == old(self).spec_pending(),
            *final(self) == (Ic { line: old(self).spec_consume_lines(), ..*old(self) }),
    {
        if self.enabled.v_blank && self.line.v_blank {
            self.line.v_blank = false;
            Some(V_BLANK_INT)
        } else if self.enabled.lcd_stat && self.line.lcd_stat {
            self.line.lcd_stat = false;
            Some(LCD_STAT_INT)
        } else if self.enabled.timer && self.line.timer {
            self.line.timer = false;
            Some(TIMER_INT)
        } else if self.enabled.serial && self.line.serial {
            self.line.serial = false;
            Some(SERIAL_INT)
        } else if self.enabled.joypad && self.line.joypad {
            self.line.joypad = false;
            Some(JOYPAD_INT)
        } else {
            None
        }
    }
}

impl IoDevice for Ic {
    open spec fn inv(&self) -> bool {
        true
    }

    open spec fn spec_read(v: Ic, addr: u16) -> MemRead {
        if addr == 0xFFFF {
            MemRead::Read(spec_interrupts_byte(v.enabled))
        } else if addr == 0xFF0F {
            MemRead::Read(spec_interrupts_byte(v.line))
        } else {
            MemRead::Ignore
        }
    }

    open spec fn spec_write(v: Ic, addr: u16, value: u8) -> Ic {
        let parsed = Interrupts {
            v_blank: value % 2 == 1,
            lcd_stat: value / 2 % 2 == 1,
            timer: value / 4 % 2 == 1,
            serial: value / 8 % 2 == 1,
            joypad: value / 16 % 2 == 1,
        };
        if addr == 0xFFFF {
            Ic { enabled: parsed, ..v }
        } else if addr == 0xFF0F {
            Ic { line: parsed, ..v }
        } else {
            v
        }
    }

    open spec fn spec_handles_write(v: Ic, addr: u16, value: u8) -> bool {
        addr == 0xFFFF || addr == 0xFF0F
    }

    fn read_byte(&self, addr: u16) -> (r: MemRead) {
        if addr == 0xFFFF {
            MemRead::Read(self.enabled.get())
        } else if addr == 0xFF0F {
            MemRead::Read(self.line.get())
        } else {
            MemRead::Ignore
        }
    }

    fn write_byte(&mut self, addr: u16, value: u8) -> (r: MemWrite) {
        if addr == 0xFFFF {
            self.enabled.set(value);
            MemWrite::Write
        } else if addr == 0xFF0F {
            self.line.set(value);
            MemWrite::Write
        } else {
            MemWrite::Ignore
        }
    }
}

} // verus!
