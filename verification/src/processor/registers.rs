//! The CPU register file: eight 8-bit registers paired for 16-bit access,
//! the stack pointer and the program counter.
//!
//! F holds the four flags in its upper nibble (bit 7 Z, bit 6 N, bit 5 H,
//! bit 4 C) and its low nibble is always zero; the flags are kept as four
//! booleans, and the byte form is computed on demand, so the low-nibble
//! invariant holds by construction.

use vstd::prelude::*;

verus! {

#[derive(Clone, Copy, Debug)]
pub struct Registers {
    pub a: u8,
    pub b: u8,
    pub c: u8,
    pub d: u8,
    pub e: u8,
    pub h: u8,
    pub l: u8,
    pub sp: u16,
    pub pc: u16,
    pub zf_bit: bool,
    pub nf_bit: bool,
    pub hf_bit: bool,
    pub cf_bit: bool,
}

#[derive(Clone, Copy, Debug)]
pub enum Reg8 {
    A,
    B,
    C,
    D,
    E,
    H,
    L,
}

#[derive(Clone, Copy, Debug)]
pub enum Reg16 {
    AF,
    BC,
    DE,
    HL,
    SP,
}

/// The F register byte encoded from the four flags: the upper nibble holds
/// Z, N, H, C from bit 7 down to bit 4 and the low nibble is zero.
pub open spec fn spec_flags_byte(zf: bool, nf: bool, hf: bool, cf: bool) -> u8 {
    ((if zf { 0x80 as int } else { 0 }) + (if nf { 0x40 as int } else { 0 })
        + (if hf { 0x20 as int } else { 0 }) + (if cf { 0x10 as int } else { 0 })) as u8
}

impl Registers {
    /// The current F register byte.
    pub open spec fn spec_f(&self) -> u8 {
        spec_flags_byte(self.zf_bit, self.nf_bit, self.hf_bit, self.cf_bit)
    }

    /// The value of a 16-bit register pair.
    pub open spec fn spec_read16(&self, reg: Reg16) -> u16 {
        match reg {
            Reg16::AF => (self.a * 256 + self.spec_f()) as u16,
            Reg16::BC => (self.b * 256 + self.c) as u16,
            Reg16::DE => (self.d * 256 + self.e) as u16,
            Reg16::HL => (self.h * 256 + self.l) as u16,
            Reg16::SP => self.sp,
        }
    }

    pub fn new() -> (r: Registers)
        ensures
            r.pc == 0,
            r.sp == 0xFFFE,
            r.a == 0 && r.b == 0 && r.c == 0 && r.d == 0 && r.e == 0 && r.h == 0 && r.l == 0,
            !r.zf_bit && !r.nf_bit && !r.hf_bit && !r.cf_bit,
    {
        Registers {
            a: 0,
            b: 0,
            c: 0,
            d: 0,
            e: 0,
            h: 0,
            l: 0,
            sp: 0xFFFE,
            pc: 0,
            zf_bit: false,
            nf_bit: false,
            hf_bit: false,
            cf_bit: false,
        }
    }

    /// The F register byte, with the flags packed into the upper nibble and
    /// the low nibble zero.
    pub fn f(&self) -> (r: u8)
        ensures
            r == self.spec_f(),
            r % 16 == 0,
    {
        let r: u8 = (if self.zf_bit { 0x80u8 } else { 0 }) + (if self.nf_bit { 0x40u8 } else { 0 })
            + (if self.hf_bit { 0x20u8 } else { 0 }) + (if self.cf_bit { 0x10u8 } else { 0 });
        r
    }

    /// Replace the four flags with the upper nibble of the given byte;
    /// the low nibble is discarded, as a write to F does on hardware.
    pub fn set_f(&mut self, val: u8)
        ensures
            final(self).zf_bit == (val / 128 % 2 == 1),
            final(self).nf_bit == (val / 64 % 2 == 1),
            final(self).hf_bit == (val / 32 % 2 == 1),
            final(self).cf_bit == (val / 16 % 2 == 1),
            *final(self) == (Registers { zf_bit: final(self).zf_bit, nf_bit: final(self).nf_bit,
                hf_bit: final(self).hf_bit, cf_bit: final(self).cf_bit, ..*old(self) }),
    {
        self.zf_bit = val / 128 % 2 == 1;
        self.nf_bit = val / 64 % 2 == 1;
        self.hf_bit = val / 32 % 2 == 1;
        self.cf_bit = val / 16 % 2 == 1;
    }

    pub fn read16(&self, reg: Reg16) -> (r: u16)
        ensures
            r == self.spec_read16(reg),
    {
        match reg {
            Reg16::AF => (self.a as u16) * 256 + (self.f() as u16),
            Reg16::BC => (self.b as u16) * 256 + (self.c as u16),
            Reg16::DE => (self.d as u16) * 256 + (self.e as u16),
            Reg16::HL => (self.h as u16) * 256 + (self.l as u16),
            Reg16::SP => self.sp,
        }
    }

    pub fn write16(&mut self, reg: Reg16, val: u16)
        ensures
            final(self).pc == old(self).pc,
            final(self).spec_read16(reg) == match reg {
                Reg16::AF => (val - val % 16) as u16,
                _ => val,
            },
            match reg {
                Reg16::AF => *final(self) == (Registers { a: final(self).a,
                    zf_bit: final(self).zf_bit, nf_bit: final(self).nf_bit,
                    hf_bit: final(self).hf_bit, cf_bit: final(self).cf_bit, ..*old(self) })
                    && final(self).a == val / 256
                    && final(self).zf_bit == (val / 128 % 2 == 1)
                    && final(self).nf_bit == (val / 64 % 2 == 1)
                    && final(self).hf_bit == (val / 32 % 2 == 1)
                    && final(self).cf_bit == (val / 16 % 2 == 1),
                Reg16::BC => *final(self) == (Registers { b: (val / 256) as u8,
                    c: (val % 256) as u8, ..*old(self) }),
                Reg16::DE => *final(self) == (Registers { d: (val / 256) as u8,
                    e: (val % 256) as u8, ..*old(self) }),
                Reg16::HL => *final(self) == (Registers { h: (val / 256) as u8,
                    l: (val % 256) as u8, ..*old(self) }),
                Reg16::SP => *final(self) == (Registers { sp: val, ..*old(self) }),
            },
    {
        match reg {
            Reg16::AF => {
                self.a = (val / 256) as u8;
                self.set_f((val % 256) as u8);
                proof {
                    lemma_flags_byte_roundtrip(val as int);
                }
            }
            Reg16::BC => {
                self.b = (val / 256) as u8;
                self.c = (val % 256) as u8;
            }
            Reg16::DE => {
                self.d = (val / 256) as u8;
                self.e = (val % 256) as u8;
            }
            Reg16::HL => {
                self.h = (val / 256) as u8;
                self.l = (val % 256) as u8;
            }
            Reg16::SP => {
                self.sp = val;
            }
        }
    }

    pub fn zf(&self) -> (r: bool)
        ensures
            r == self.zf_bit,
    {
        self.zf_bit
    }

    pub fn nf(&self) -> (r: bool)
        ensures
            r == self.nf_bit,
    {
        self.nf_bit
    }

    pub fn cf(&self) -> (r: bool)
        ensures
            r == self.cf_bit,
    {
        self.cf_bit
    }

    pub fn hf(&self) -> (r: bool)
        ensures
            r == self.hf_bit,
    {
        self.hf_bit
    }

    pub fn set_zf(&mut self, zf: bool)
        ensures
            *final(self) == (Registers { zf_bit: zf, ..*old(self) }),
    {
        self.zf_bit = zf;
    }

    pub fn set_nf(&mut self, nf: bool)
        ensures
            *final(self) == (Registers { nf_bit: nf, ..*old(self) }),
    {
        self.nf_bit = nf;
    }

    pub fn set_cf(&mut self, cf: bool)
        ensures
            *final(self) == (Registers { cf_bit: cf, ..*old(self) }),
    {
        self.cf_bit = cf;
    }

    pub fn set_hf(&mut self, hf: bool)
        ensures
            *final(self) == (Registers { hf_bit: hf, ..*old(self) }),
    {
        self.hf_bit = hf;
    }
}

/// Decoding the upper nibble of a byte into the four flags and packing the
/// flags again yields the byte with its low nibble cleared.
pub proof fn lemma_flags_byte_roundtrip(val: int)
    requires
        0 <= val < 0x10000,
    ensures
        spec_flags_byte(val % 256 / 128 % 2 == 1, val % 256 / 64 % 2 == 1,
            val % 256 / 32 % 2 == 1, val % 256 / 16 % 2 == 1) == val % 256 - val % 16,
        val % 256 / 128 % 2 == val / 128 % 2,
        val % 256 / 64 % 2 == val / 64 % 2,
        val % 256 / 32 % 2 == val / 32 % 2,
        val % 256 / 16 % 2 == val / 16 % 2,
        val % 256 % 16 == val % 16,
{
    let b = val % 256;
    assert(b == 128 * (b / 128 % 2) + 64 * (b / 64 % 2) + 32 * (b / 32 % 2) + 16 * (b / 16 % 2)
        + b % 16) by (nonlinear_arith)
        requires
            0 <= b < 256,
    ;
    assert(b / 128 % 2 == val / 128 % 2 && b / 64 % 2 == val / 64 % 2 && b / 32 % 2 == val / 32 % 2
        && b / 16 % 2 == val / 16 % 2 && b % 16 == val % 16) by (nonlinear_arith)
        requires
            0 <= val < 0x10000,
            b == val % 256,
    ;
}

} // verus!
