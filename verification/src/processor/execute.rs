//! The instruction families: each takes its operands as addressing-mode
//! values and carries the exact register, memory and timing contract of the
//! hardware instruction it implements.

use vstd::prelude::*;

use crate::mmu::Mmu;
use crate::ppu::{bit_of, spec_bit};
use crate::processor::registers::{Reg16, Reg8, Registers};
use crate::processor::{
    spec_addr_cycles, spec_addr_regs, spec_addr_value, spec_alu_add, spec_alu_sub, spec_condition,
    spec_in8_cycles, spec_in8_regs, spec_in8_value, spec_out8_cycles, spec_out8_regs,
    spec_read_word, spec_reg8, spec_set_reg8, Addr, Condition, In8, Out8, Processor, TCycles,
    FETCH_T_CYCLES, MEM_ACCESS_T_CYCLES_16, MEM_ACCESS_T_CYCLES_8,
};

verus! {

/// The power of two selecting bit `n` of a byte.
pub open spec fn spec_bit_mask(n: int) -> u8 {
    if n == 0 {
        1
    } else if n == 1 {
        2
    } else if n == 2 {
        4
    } else if n == 3 {
        8
    } else if n == 4 {
        16
    } else if n == 5 {
        32
    } else if n == 6 {
        64
    } else {
        128
    }
}

/// The power of two selecting bit `n` of a byte.
pub fn bit_mask(n: u8) -> (r: u8)
    requires
        n < 8,
    ensures
        r == spec_bit_mask(n as int),
{
    if n == 0 {
        1
    } else if n == 1 {
        2
    } else if n == 2 {
        4
    } else if n == 3 {
        8
    } else if n == 4 {
        16
    } else if n == 5 {
        32
    } else if n == 6 {
        64
    } else {
        128
    }
}

/// A rotate or shift step on one byte, with the bit that falls out:
/// the nine forms share their flag rule (Z from the result unless forced
/// clear by the A-register variants; N and H clear; C from the fallen bit).
pub open spec fn spec_rlc(val: u8) -> u8 {
    ((val % 128) * 2 + val / 128) as u8
}

pub open spec fn spec_rl(val: u8, carry: bool) -> u8 {
    ((val % 128) * 2 + (if carry { 1 as int } else { 0 })) as u8
}

pub open spec fn spec_rrc(val: u8) -> u8 {
    (val / 2 + (val % 2) * 128) as u8
}

pub open spec fn spec_rr(val: u8, carry: bool) -> u8 {
    (val / 2 + (if carry { 128 as int } else { 0 })) as u8
}

pub open spec fn spec_sla(val: u8) -> u8 {
    ((val % 128) * 2) as u8
}

pub open spec fn spec_sra(val: u8) -> u8 {
    (val / 2 + (val / 128) * 128) as u8
}

pub open spec fn spec_srl(val: u8) -> u8 {
    (val / 2) as u8
}

pub open spec fn spec_swap(val: u8) -> u8 {
    ((val % 16) * 16 + val / 16) as u8
}

/// The register file after the binary-to-BCD adjustment of A: with N clear,
/// 0x06 and 0x60 are added where the nibbles or their carries demand it;
/// with N set the same corrections are subtracted. H is cleared, Z follows
/// the final A, and C is set exactly when the 0x60 correction applies.
pub open spec fn spec_daa(regs: Registers) -> Registers {
    let c6 = regs.hf_bit || (!regs.nf_bit && regs.a % 16 > 9);
    let c60 = regs.cf_bit || (!regs.nf_bit && regs.a > 0x99);
    let correction = (if c6 { 6 as int } else { 0 }) + (if c60 { 0x60 as int } else { 0 });
    let a = if !regs.nf_bit {
        ((regs.a + correction) % 256) as u8
    } else {
        ((regs.a + 512 - correction) % 256) as u8
    };
    Registers { a, zf_bit: a == 0, hf_bit: false, cf_bit: c60, ..regs }
}

impl Processor {
    /// LD: move a byte from the source to the destination.
    pub fn load(&mut self, mmu: &mut Mmu, out8: Out8, in8: In8) -> (cycles: TCycles)
        requires
            old(mmu).inv(),
        ensures
            final(mmu).inv(),
            cycles == FETCH_T_CYCLES + spec_in8_cycles(in8) + spec_out8_cycles(out8),
            ({
                let v = spec_in8_value(old(self).registers, old(mmu)@, in8);
                let regs1 = spec_in8_regs(old(self).registers, in8);
                match out8 {
                    Out8::R(reg) => final(self).registers == spec_set_reg8(
                        spec_out8_regs(regs1, out8),
                        reg,
                        v,
                    ) && final(mmu)@ == old(mmu)@,
                    Out8::Mem(a) => final(self).registers == spec_out8_regs(regs1, out8) && final(mmu)@ == old(mmu)@.spec_write(spec_addr_value(regs1, old(mmu)@, a), v),
                }
            }),
            final(self).ime == old(self).ime && final(self).halt == old(self).halt && final(self).ei_pending == old(self).ei_pending,
    {
        let (val, cycles) = self.read8(in8, mmu);
        let w = self.write8(out8, mmu, val);
        w + cycles + FETCH_T_CYCLES
    }

    /// ADD A,src.
    pub fn add(&mut self, mmu: &Mmu, in8: In8) -> (cycles: TCycles)
        requires
            mmu.inv(),
        ensures
            cycles == FETCH_T_CYCLES + spec_in8_cycles(in8),
            final(self).registers == spec_alu_add(
                spec_in8_regs(old(self).registers, in8),
                spec_in8_value(old(self).registers, mmu@, in8),
                false,
            ),
            final(self).ime == old(self).ime && final(self).halt == old(self).halt && final(self).ei_pending == old(self).ei_pending,
    {
        let (val, cycles) = self.read8(in8, mmu);
        self.alu_add(val, false);
        cycles + FETCH_T_CYCLES
    }

    /// ADC A,src: ADD with the carry flag added in.
    pub fn adc(&mut self, mmu: &Mmu, in8: In8) -> (cycles: TCycles)
        requires
            mmu.inv(),
        ensures
            cycles == FETCH_T_CYCLES + spec_in8_cycles(in8),
            final(self).registers == spec_alu_add(
                spec_in8_regs(old(self).registers, in8),
                spec_in8_value(old(self).registers, mmu@, in8),
                old(self).registers.cf_bit,
            ),
            final(self).ime == old(self).ime && final(self).halt == old(self).halt && final(self).ei_pending == old(self).ei_pending,
    {
        let (val, cycles) = self.read8(in8, mmu);
        let carry = self.registers.cf();
        self.alu_add(val, carry);
        cycles + FETCH_T_CYCLES
    }

    /// SUB src.
    pub fn sub(&mut self, mmu: &Mmu, in8: In8) -> (cycles: TCycles)
        requires
            mmu.inv(),
        ensures
            cycles == FETCH_T_CYCLES + spec_in8_cycles(in8),
            final(self).registers == spec_alu_sub(
                spec_in8_regs(old(self).registers, in8),
                spec_in8_value(old(self).registers, mmu@, in8),
                false,
            ),
            final(self).ime == old(self).ime && final(self).halt == old(self).halt && final(self).ei_pending == old(self).ei_pending,
    {
        let (val, cycles) = self.read8(in8, mmu);
        self.alu_sub(val, false);
        cycles + FETCH_T_CYCLES
    }

    /// SBC A,src: SUB with the carry flag borrowed in.
    pub fn sbc(&mut self, mmu: &Mmu, in8: In8) -> (cycles: TCycles)
        requires
            mmu.inv(),
        ensures
            cycles == FETCH_T_CYCLES + spec_in8_cycles(in8),
            final(self).registers == spec_alu_sub(
                spec_in8_regs(old(self).registers, in8),
                spec_in8_value(old(self).registers, mmu@, in8),
                old(self).registers.cf_bit,
            ),
            final(self).ime == old(self).ime && final(self).halt == old(self).halt && final(self).ei_pending == old(self).ei_pending,
    {
        let (val, cycles) = self.read8(in8, mmu);
        let carry = self.registers.cf();
        self.alu_sub(val, carry);
        cycles + FETCH_T_CYCLES
    }

    /// CP src: SUB without writing A back.
    pub fn cp(&mut self, mmu: &Mmu, in8: In8) -> (cycles: TCycles)
        requires
            mmu.inv(),
        ensures
            cycles == FETCH_T_CYCLES + spec_in8_cycles(in8),
            final(self).registers == (Registers {
                a: spec_in8_regs(old(self).registers, in8).a,
                ..spec_alu_sub(
                    spec_in8_regs(old(self).registers, in8),
                    spec_in8_value(old(self).registers, mmu@, in8),
                    false,
                )
            }),
            final(self).ime == old(self).ime && final(self).halt == old(self).halt && final(self).ei_pending == old(self).ei_pending,
    {
        let (val, cycles) = self.read8(in8, mmu);
        let a = self.registers.a;
        self.alu_sub(val, false);
        self.registers.a = a;
        cycles + FETCH_T_CYCLES
    }

    /// AND src: Z from the result, N clear, H set, C clear.
    pub fn and(&mut self, mmu: &Mmu, in8: In8) -> (cycles: TCycles)
        requires
            mmu.inv(),
        ensures
            cycles == FETCH_T_CYCLES + spec_in8_cycles(in8),
            ({
                let v = spec_in8_value(old(self).registers, mmu@, in8);
                let regs1 = spec_in8_regs(old(self).registers, in8);
                final(self).registers == (Registers {
                    a: regs1.a & v,
                    zf_bit: (regs1.a & v) == 0,
                    nf_bit: false,
                    hf_bit: true,
                    cf_bit: false,
                    ..regs1
                })
            }),
            final(self).ime == old(self).ime && final(self).halt == old(self).halt && final(self).ei_pending == old(self).ei_pending,
    {
        let (val, cycles) = self.read8(in8, mmu);
        self.registers.a = self.registers.a & val;
        let z = self.registers.a == 0;
        self.registers.set_zf(z);
        self.registers.set_nf(false);
        self.registers.set_hf(true);
        self.registers.set_cf(false);
        cycles + FETCH_T_CYCLES
    }

    /// OR src: Z from the result, N, H and C clear.
    pub fn or(&mut self, mmu: &Mmu, in8: In8) -> (cycles: TCycles)
        requires
            mmu.inv(),
        ensures
            cycles == FETCH_T_CYCLES + spec_in8_cycles(in8),
            ({
                let v = spec_in8_value(old(self).registers, mmu@, in8);
                let regs1 = spec_in8_regs(old(self).registers, in8);
                final(self).registers == (Registers {
                    a: regs1.a | v,
                    zf_bit: (regs1.a | v) == 0,
                    nf_bit: false,
                    hf_bit: false,
                    cf_bit: false,
                    ..regs1
                })
            }),
            final(self).ime == old(self).ime && final(self).halt == old(self).halt && final(self).ei_pending == old(self).ei_pending,
    {
        let (val, cycles) = self.read8(in8, mmu);
        self.registers.a = self.registers.a | val;
        let z = self.registers.a == 0;
        self.registers.set_zf(z);
        self.registers.set_nf(false);
        self.registers.set_hf(false);
        self.registers.set_cf(false);
        cycles + FETCH_T_CYCLES
    }

    /// XOR src: Z from the result, N, H and C clear.
    pub fn xor(&mut self, mmu: &Mmu, in8: In8) -> (cycles: TCycles)
        requires
            mmu.inv(),
        ensures
            cycles == FETCH_T_CYCLES + spec_in8_cycles(in8),
            ({
                let v = spec_in8_value(old(self).registers, mmu@, in8);
                let regs1 = spec_in8_regs(old(self).registers, in8);
                final(self).registers == (Registers {
                    a: regs1.a ^ v,
                    zf_bit: (regs1.a ^ v) == 0,
                    nf_bit: false,
                    hf_bit: false,
                    cf_bit: false,
                    ..regs1
                })
            }),
            final(self).ime == old(self).ime && final(self).halt == old(self).halt && final(self).ei_pending == old(self).ei_pending,
    {
        let (val, cycles) = self.read8(in8, mmu);
        self.registers.a = self.registers.a ^ val;
        let z = self.registers.a == 0;
        self.registers.set_zf(z);
        self.registers.set_nf(false);
        self.registers.set_hf(false);
        self.registers.set_cf(false);
        cycles + FETCH_T_CYCLES
    }

    /// A rotate, shift or swap through a read-modify-write operand, with
    /// the bit that falls out landing in the carry; Z is set from the
    /// result. `kind` comes from `RotKind`.
    pub fn rot(&mut self, mmu: &mut Mmu, io: Addr8, kind: RotKind) -> (cycles: TCycles)
        requires
            old(mmu).inv(),
        ensures
            final(mmu).inv(),
            cycles == FETCH_T_CYCLES + spec_rmw_cycles(io),
            ({
                let v = spec_rmw_value(old(self).registers, old(mmu)@, io);
                let res = spec_rot_result(kind, v, old(self).registers.cf_bit);
                let regs2 = (Registers {
                    zf_bit: res == 0,
                    nf_bit: false,
                    hf_bit: false,
                    cf_bit: spec_rot_carry(kind, v, old(self).registers.cf_bit),
                    ..old(self).registers
                });
                match io {
                    Addr8::Reg(reg) => final(self).registers == spec_set_reg8(regs2, reg, res)
                        && final(mmu)@ == old(mmu)@,
                    Addr8::MemHl => final(self).registers == regs2 && final(mmu)@ == old(mmu)@.spec_write(old(self).registers.spec_read16(Reg16::HL), res),
                }
            }),
            final(self).ime == old(self).ime && final(self).halt == old(self).halt && final(self).ei_pending == old(self).ei_pending,
    {
        let (val, rc) = self.read_rmw(io, mmu);
        let carry = self.registers.cf();
        let res = match kind {
            RotKind::Rlc => (val % 128) * 2 + val / 128,
            RotKind::Rl => (val % 128) * 2 + (if carry {
                1
            } else {
                0
            }),
            RotKind::Rrc => val / 2 + (val % 2) * 128,
            RotKind::Rr => val / 2 + (if carry {
                128
            } else {
                0
            }),
            RotKind::Sla => (val % 128) * 2,
            RotKind::Sra => val / 2 + (val / 128) * 128,
            RotKind::Srl => val / 2,
            RotKind::Swap => (val % 16) * 16 + val / 16,
        };
        let new_carry = match kind {
            RotKind::Rlc => val / 128 == 1,
            RotKind::Rl => val / 128 == 1,
            RotKind::Rrc => val % 2 == 1,
            RotKind::Rr => val % 2 == 1,
            RotKind::Sla => val / 128 == 1,
            RotKind::Sra => val % 2 == 1,
            RotKind::Srl => val % 2 == 1,
            RotKind::Swap => false,
        };
        self.registers.set_zf(res == 0);
        self.registers.set_nf(false);
        self.registers.set_hf(false);
        self.registers.set_cf(new_carry);
        let wc = self.write_rmw(io, mmu, res);
        rc + wc + FETCH_T_CYCLES
    }
}

/// A read-modify-write operand: a register or the byte at HL.
#[derive(Clone, Copy, Debug)]
pub enum Addr8 {
    Reg(Reg8),
    MemHl,
}

/// The nine rotate, shift and swap forms of the CB page (and the four
/// A-register rotates of the main page).
#[derive(Clone, Copy, Debug)]
pub enum RotKind {
    Rlc,
    Rl,
    Rrc,
    Rr,
    Sla,
    Sra,
    Srl,
    Swap,
}

/// The value a read-modify-write operand holds.
pub open spec fn spec_rmw_value(regs: Registers, m: crate::mmu::MmuView, io: Addr8) -> u8 {
    match io {
        Addr8::Reg(r) => spec_reg8(regs, r),
        Addr8::MemHl => m.spec_read(regs.spec_read16(Reg16::HL)),
    }
}

/// The extra T-cycles a read-modify-write access costs (read and write).
pub open spec fn spec_rmw_cycles(io: Addr8) -> int {
    match io {
        Addr8::Reg(_) => 0,
        Addr8::MemHl => 8,
    }
}

/// The rotated, shifted or swapped byte.
pub open spec fn spec_rot_result(kind: RotKind, val: u8, carry: bool) -> u8 {
    match kind {
        RotKind::Rlc => spec_rlc(val),
        RotKind::Rl => spec_rl(val, carry),
        RotKind::Rrc => spec_rrc(val),
        RotKind::Rr => spec_rr(val, carry),
        RotKind::Sla => spec_sla(val),
        RotKind::Sra => spec_sra(val),
        RotKind::Srl => spec_srl(val),
        RotKind::Swap => spec_swap(val),
    }
}

/// The bit the rotate or shift drops into the carry flag.
pub open spec fn spec_rot_carry(kind: RotKind, val: u8, carry: bool) -> bool {
    match kind {
        RotKind::Rlc => val / 128 == 1,
        RotKind::Rl => val / 128 == 1,
        RotKind::Rrc => val % 2 == 1,
        RotKind::Rr => val % 2 == 1,
        RotKind::Sla => val / 128 == 1,
        RotKind::Sra => val % 2 == 1,
        RotKind::Srl => val % 2 == 1,
        RotKind::Swap => false,
    }
}

impl Processor {
    /// Read a read-modify-write operand.
    fn read_rmw(&mut self, io: Addr8, mmu: &Mmu) -> (r: (u8, TCycles))
        requires
            mmu.inv(),
        ensures
            r.0 == spec_rmw_value(old(self).registers, mmu@, io),
            r.1 == (match io {
                Addr8::Reg(_) => 0 as int,
                Addr8::MemHl => 4,
            }),
            *final(self) == *old(self),
    {
        match io {
            Addr8::Reg(reg) => {
                let v = match reg {
                    Reg8::A => self.registers.a,
                    Reg8::B => self.registers.b,
                    Reg8::C => self.registers.c,
                    Reg8::D => self.registers.d,
                    Reg8::E => self.registers.e,
                    Reg8::H => self.registers.h,
                    Reg8::L => self.registers.l,
                };
                (v, 0)
            }
            Addr8::MemHl => {
                let a = self.registers.read16(Reg16::HL);
                (mmu.read_byte(a), MEM_ACCESS_T_CYCLES_8)
            }
        }
    }

    /// Write a read-modify-write operand back.
    fn write_rmw(&mut self, io: Addr8, mmu: &mut Mmu, val: u8) -> (cycles: TCycles)
        requires
            old(mmu).inv(),
        ensures
            final(mmu).inv(),
            cycles == (match io {
                Addr8::Reg(_) => 0 as int,
                Addr8::MemHl => 4,
            }),
            match io {
                Addr8::Reg(reg) => final(self).registers == spec_set_reg8(
                    old(self).registers,
                    reg,
                    val,
                ) && final(mmu)@ == old(mmu)@,
                Addr8::MemHl => final(self).registers == old(self).registers && final(mmu)@ == old(mmu)@.spec_write(old(self).registers.spec_read16(Reg16::HL), val),
            },
            final(self).ime == old(self).ime && final(self).halt == old(self).halt && final(self).ei_pending == old(self).ei_pending,
    {
        match io {
            Addr8::Reg(reg) => {
                match reg {
                    Reg8::A => self.registers.a = val,
                    Reg8::B => self.registers.b = val,
                    Reg8::C => self.registers.c = val,
                    Reg8::D => self.registers.d = val,
                    Reg8::E => self.registers.e = val,
                    Reg8::H => self.registers.h = val,
                    Reg8::L => self.registers.l = val,
                }
                0
            }
            Addr8::MemHl => {
                let a = self.registers.read16(Reg16::HL);
                mmu.write_byte(a, val);
                MEM_ACCESS_T_CYCLES_8
            }
        }
    }

    /// INC on a read-modify-write operand: Z and H from the result, N
    /// clear, C untouched.
    pub fn inc(&mut self, mmu: &mut Mmu, io: Addr8) -> (cycles: TCycles)
        requires
            old(mmu).inv(),
        ensures
            final(mmu).inv(),
            cycles == FETCH_T_CYCLES + spec_rmw_cycles(io),
            ({
                let v = spec_rmw_value(old(self).registers, old(mmu)@, io);
                let res = ((v + 1) % 256) as u8;
                let regs2 = (Registers {
                    zf_bit: res == 0,
                    nf_bit: false,
                    hf_bit: v % 16 == 0xF,
                    ..old(self).registers
                });
                match io {
                    Addr8::Reg(reg) => final(self).registers == spec_set_reg8(regs2, reg, res)
                        && final(mmu)@ == old(mmu)@,
                    Addr8::MemHl => final(self).registers == regs2 && final(mmu)@ == old(mmu)@.spec_write(old(self).registers.spec_read16(Reg16::HL), res),
                }
            }),
            final(self).ime == old(self).ime && final(self).halt == old(self).halt && final(self).ei_pending == old(self).ei_pending,
    {
        let (val, rc) = self.read_rmw(io, mmu);
        let result = ((val as u16 + 1) % 256) as u8;
        self.registers.set_zf(result == 0);
        self.registers.set_nf(false);
        self.registers.set_hf(val % 16 == 0xF);
        let wc = self.write_rmw(io, mmu, result);
        rc + wc + FETCH_T_CYCLES
    }

    /// DEC on a read-modify-write operand: Z and H from the result, N set,
    /// C untouched.
    pub fn dec(&mut self, mmu: &mut Mmu, io: Addr8) -> (cycles: TCycles)
        requires
            old(mmu).inv(),
        ensures
            final(mmu).inv(),
            cycles == FETCH_T_CYCLES + spec_rmw_cycles(io),
            ({
                let v = spec_rmw_value(old(self).registers, old(mmu)@, io);
                let res = ((v + 255) % 256) as u8;
                let regs2 = (Registers {
                    zf_bit: res == 0,
                    nf_bit: true,
                    hf_bit: v % 16 == 0,
                    ..old(self).registers
                });
                match io {
                    Addr8::Reg(reg) => final(self).registers == spec_set_reg8(regs2, reg, res)
                        && final(mmu)@ == old(mmu)@,
                    Addr8::MemHl => final(self).registers == regs2 && final(mmu)@ == old(mmu)@.spec_write(old(self).registers.spec_read16(Reg16::HL), res),
                }
            }),
            final(self).ime == old(self).ime && final(self).halt == old(self).halt && final(self).ei_pending == old(self).ei_pending,
    {
        let (val, rc) = self.read_rmw(io, mmu);
        let result = ((val as u16 + 255) % 256) as u8;
        self.registers.set_zf(result == 0);
        self.registers.set_nf(true);
        self.registers.set_hf(val % 16 == 0);
        let wc = self.write_rmw(io, mmu, result);
        rc + wc + FETCH_T_CYCLES
    }

    /// SWAP on a read-modify-write operand (the CB page's nibble swap).
    pub fn swap(&mut self, mmu: &mut Mmu, io: Addr8) -> (cycles: TCycles)
        requires
            old(mmu).inv(),
        ensures
            final(mmu).inv(),
            cycles == FETCH_T_CYCLES + spec_rmw_cycles(io),
            final(self).ime == old(self).ime && final(self).halt == old(self).halt && final(self).ei_pending == old(self).ei_pending,
            ({
                let v = spec_rmw_value(old(self).registers, old(mmu)@, io);
                let res = spec_swap(v);
                let regs2 = (Registers {
                    zf_bit: res == 0,
                    nf_bit: false,
                    hf_bit: false,
                    cf_bit: false,
                    ..old(self).registers
                });
                match io {
                    Addr8::Reg(reg) => final(self).registers == spec_set_reg8(regs2, reg, res)
                        && final(mmu)@ == old(mmu)@,
                    Addr8::MemHl => final(self).registers == regs2 && final(mmu)@ == old(mmu)@.spec_write(old(self).registers.spec_read16(Reg16::HL), res),
                }
            }),
    {
        let (val, rc) = self.read_rmw(io, mmu);
        let res = (val % 16) * 16 + val / 16;
        self.registers.set_zf(res == 0);
        self.registers.set_nf(false);
        self.registers.set_hf(false);
        self.registers.set_cf(false);
        let wc = self.write_rmw(io, mmu, res);
        rc + wc + FETCH_T_CYCLES
    }

    /// BIT n: Z from the complement of the tested bit, N clear, H set, C
    /// untouched; the operand is only read.
    pub fn bit(&mut self, mmu: &Mmu, io: Addr8, n: u8) -> (cycles: TCycles)
        requires
            mmu.inv(),
            n < 8,
        ensures
            cycles == 2 * FETCH_T_CYCLES + (match io {
                Addr8::Reg(_) => 0 as int,
                Addr8::MemHl => 4,
            }),
            final(self).registers == (Registers {
                zf_bit: spec_bit(spec_rmw_value(old(self).registers, mmu@, io), n as int) == 0,
                nf_bit: false,
                hf_bit: true,
                ..old(self).registers
            }),
            final(self).ime == old(self).ime && final(self).halt == old(self).halt && final(self).ei_pending == old(self).ei_pending,
    {
        let (val, rc) = self.read_rmw(io, mmu);
        let b = bit_of(val, n as u16);
        self.registers.set_zf(b == 0);
        self.registers.set_nf(false);
        self.registers.set_hf(true);
        rc + 2 * FETCH_T_CYCLES
    }

    /// SET n: set one bit of the operand; no flags.
    pub fn set(&mut self, mmu: &mut Mmu, io: Addr8, n: u8) -> (cycles: TCycles)
        requires
            old(mmu).inv(),
            n < 8,
        ensures
            final(mmu).inv(),
            cycles == 2 * FETCH_T_CYCLES + spec_rmw_cycles(io),
            ({
                let v = spec_rmw_value(old(self).registers, old(mmu)@, io);
                let res = (if spec_bit(v, n as int) == 1 {
                    v as int
                } else {
                    v + spec_bit_mask(n as int)
                }) as u8;
                match io {
                    Addr8::Reg(reg) => final(self).registers == spec_set_reg8(
                        old(self).registers,
                        reg,
                        res,
                    ) && final(mmu)@ == old(mmu)@,
                    Addr8::MemHl => final(self).registers == old(self).registers && final(mmu)@
                        == old(mmu)@.spec_write(old(self).registers.spec_read16(Reg16::HL), res),
                }
            }),
            final(self).ime == old(self).ime && final(self).halt == old(self).halt && final(self).ei_pending == old(self).ei_pending,
    {
        let (val, rc) = self.read_rmw(io, mmu);
        let res = if bit_of(val, n as u16) == 1 {
            val
        } else {
            val + bit_mask(n)
        };
        proof {
            lemma_bit_mask_fits(val, n as int);
        }
        let wc = self.write_rmw(io, mmu, res);
        rc + wc + 2 * FETCH_T_CYCLES
    }

    /// RES n: clear one bit of the operand; no flags.
    pub fn res(&mut self, mmu: &mut Mmu, io: Addr8, n: u8) -> (cycles: TCycles)
        requires
            old(mmu).inv(),
            n < 8,
        ensures
            final(mmu).inv(),
            cycles == 2 * FETCH_T_CYCLES + spec_rmw_cycles(io),
            ({
                let v = spec_rmw_value(old(self).registers, old(mmu)@, io);
                let res = (if spec_bit(v, n as int) == 1 {
                    v - spec_bit_mask(n as int)
                } else {
                    v as int
                }) as u8;
                match io {
                    Addr8::Reg(reg) => final(self).registers == spec_set_reg8(
                        old(self).registers,
                        reg,
                        res,
                    ) && final(mmu)@ == old(mmu)@,
                    Addr8::MemHl => final(self).registers == old(self).registers && final(mmu)@
                        == old(mmu)@.spec_write(old(self).registers.spec_read16(Reg16::HL), res),
                }
            }),
            final(self).ime == old(self).ime && final(self).halt == old(self).halt && final(self).ei_pending == old(self).ei_pending,
    {
        let (val, rc) = self.read_rmw(io, mmu);
        let res = if bit_of(val, n as u16) == 1 {
            proof {
                lemma_bit_mask_fits(val, n as int);
            }
            val - bit_mask(n)
        } else {
            val
        };
        let wc = self.write_rmw(io, mmu, res);
        rc + wc + 2 * FETCH_T_CYCLES
    }
}

/// When bit `n` of `v` is clear, adding its mask stays a byte; when it is
/// set, subtracting its mask stays non-negative.
pub proof fn lemma_bit_mask_fits(v: u8, n: int)
    requires
        0 <= n < 8,
    ensures
        spec_bit(v, n) == 0 ==> v + spec_bit_mask(n) < 256,
        spec_bit(v, n) == 1 ==> v >= spec_bit_mask(n),
{
    assert(spec_bit(v, n) == 0 ==> v + spec_bit_mask(n) < 256) by (nonlinear_arith)
        requires
            0 <= n < 8,
            spec_bit(v, n) == (if n == 0 {
                v as int % 2
            } else if n == 1 {
                v as int / 2 % 2
            } else if n == 2 {
                v as int / 4 % 2
            } else if n == 3 {
                v as int / 8 % 2
            } else if n == 4 {
                v as int / 16 % 2
            } else if n == 5 {
                v as int / 32 % 2
            } else if n == 6 {
                v as int / 64 % 2
            } else {
                v as int / 128 % 2
            }),
            spec_bit_mask(n) == (if n == 0 {
                1 as int
            } else if n == 1 {
                2 as int
            } else if n == 2 {
                4 as int
            } else if n == 3 {
                8 as int
            } else if n == 4 {
                16 as int
            } else if n == 5 {
                32 as int
            } else if n == 6 {
                64 as int
            } else {
                128
            }),
    ;
    assert(spec_bit(v, n) == 1 ==> v >= spec_bit_mask(n)) by (nonlinear_arith)
        requires
            0 <= n < 8,
            spec_bit(v, n) == (if n == 0 {
                v as int % 2
            } else if n == 1 {
                v as int / 2 % 2
            } else if n == 2 {
                v as int / 4 % 2
            } else if n == 3 {
                v as int / 8 % 2
            } else if n == 4 {
                v as int / 16 % 2
            } else if n == 5 {
                v as int / 32 % 2
            } else if n == 6 {
                v as int / 64 % 2
            } else {
                v as int / 128 % 2
            }),
            spec_bit_mask(n) == (if n == 0 {
                1 as int
            } else if n == 1 {
                2 as int
            } else if n == 2 {
                4 as int
            } else if n == 3 {
                8 as int
            } else if n == 4 {
                16 as int
            } else if n == 5 {
                32 as int
            } else if n == 6 {
                64 as int
            } else {
                128
            }),
    ;
}

impl Processor {
    /// DAA: adjust A back to packed BCD after an addition or subtraction.
    pub fn daa(&mut self) -> (cycles: TCycles)
        ensures
            cycles == FETCH_T_CYCLES,
            final(self).registers == spec_daa(old(self).registers),
            final(self).ime == old(self).ime && final(self).halt == old(self).halt && final(self).ei_pending == old(self).ei_pending,
    {
        let c6 = self.registers.hf() || (!self.registers.nf() && self.registers.a % 16 > 9);
        let c60 = self.registers.cf() || (!self.registers.nf() && self.registers.a > 0x99);
        let correction: u16 = (if c6 {
            6u16
        } else {
            0
        }) + (if c60 {
            0x60u16
        } else {
            0
        });
        let val: u8 = if !self.registers.nf() {
            ((self.registers.a as u16 + correction) % 256) as u8
        } else {
            ((self.registers.a as u16 + 512 - correction) % 256) as u8
        };
        self.registers.set_zf(val == 0);
        self.registers.set_hf(false);
        self.registers.set_cf(c60);
        self.registers.a = val;
        FETCH_T_CYCLES
    }

    /// CPL: complement A; N and H set.
    pub fn cpl(&mut self) -> (cycles: TCycles)
        ensures
            cycles == FETCH_T_CYCLES,
            final(self).registers == (Registers {
                a: (255 - old(self).registers.a) as u8,
                nf_bit: true,
                hf_bit: true,
                ..old(self).registers
            }),
            final(self).ime == old(self).ime && final(self).halt == old(self).halt && final(self).ei_pending == old(self).ei_pending,
    {
        self.registers.a = 255 - self.registers.a;
        self.registers.set_nf(true);
        self.registers.set_hf(true);
        FETCH_T_CYCLES
    }

    /// CCF: complement the carry; N and H clear.
    pub fn ccf(&mut self) -> (cycles: TCycles)
        ensures
            cycles == FETCH_T_CYCLES,
            final(self).registers == (Registers {
                cf_bit: !old(self).registers.cf_bit,
                nf_bit: false,
                hf_bit: false,
                ..old(self).registers
            }),
            final(self).ime == old(self).ime && final(self).halt == old(self).halt && final(self).ei_pending == old(self).ei_pending,
    {
        let c = self.registers.cf();
        self.registers.set_cf(!c);
        self.registers.set_nf(false);
        self.registers.set_hf(false);
        FETCH_T_CYCLES
    }

    /// SCF: set the carry; N and H clear.
    pub fn scf(&mut self) -> (cycles: TCycles)
        ensures
            cycles == FETCH_T_CYCLES,
            final(self).registers == (Registers {
                cf_bit: true,
                nf_bit: false,
                hf_bit: false,
                ..old(self).registers
            }),
            final(self).ime == old(self).ime && final(self).halt == old(self).halt && final(self).ei_pending == old(self).ei_pending,
    {
        self.registers.set_cf(true);
        self.registers.set_nf(false);
        self.registers.set_hf(false);
        FETCH_T_CYCLES
    }

    /// NOP.
    pub fn nop(&mut self) -> (cycles: TCycles)
        ensures
            cycles == FETCH_T_CYCLES,
            *final(self) == *old(self),
    {
        FETCH_T_CYCLES
    }

    /// HALT: stop executing until an interrupt is pending.
    pub fn halt(&mut self) -> (cycles: TCycles)
        ensures
            cycles == FETCH_T_CYCLES,
            *final(self) == (Processor { halt: true, ..*old(self) }),
    {
        self.halt = true;
        FETCH_T_CYCLES
    }

    /// STOP: treated as a halt; the host may surface it as an event.
    pub fn stop(&mut self) -> (cycles: TCycles)
        ensures
            cycles == FETCH_T_CYCLES,
            *final(self) == (Processor { halt: true, ..*old(self) }),
    {
        self.halt = true;
        FETCH_T_CYCLES
    }

    /// DI: disable interrupts at once.
    pub fn di(&mut self) -> (cycles: TCycles)
        ensures
            cycles == FETCH_T_CYCLES,
            *final(self) == (Processor { ime: false, ei_pending: false, ..*old(self) }),
    {
        self.ime = false;
        self.ei_pending = false;
        FETCH_T_CYCLES
    }

    /// EI: enable interrupts after the following instruction.
    pub fn ei(&mut self) -> (cycles: TCycles)
        ensures
            cycles == FETCH_T_CYCLES,
            *final(self) == (Processor { ei_pending: true, ..*old(self) }),
    {
        self.ei_pending = true;
        FETCH_T_CYCLES
    }

    /// RLCA: RLC on A with Z forced clear.
    pub fn rlca(&mut self) -> (cycles: TCycles)
        ensures
            cycles == FETCH_T_CYCLES,
            final(self).registers == (Registers {
                a: spec_rlc(old(self).registers.a),
                zf_bit: false,
                nf_bit: false,
                hf_bit: false,
                cf_bit: old(self).registers.a / 128 == 1,
                ..old(self).registers
            }),
            final(self).ime == old(self).ime && final(self).halt == old(self).halt && final(self).ei_pending == old(self).ei_pending,
    {
        let a = self.registers.a;
        self.registers.a = (a % 128) * 2 + a / 128;
        self.registers.set_zf(false);
        self.registers.set_nf(false);
        self.registers.set_hf(false);
        self.registers.set_cf(a / 128 == 1);
        FETCH_T_CYCLES
    }

    /// RLA: RL on A with Z forced clear.
    pub fn rla(&mut self) -> (cycles: TCycles)
        ensures
            cycles == FETCH_T_CYCLES,
            final(self).registers == (Registers {
                a: spec_rl(old(self).registers.a, old(self).registers.cf_bit),
                zf_bit: false,
                nf_bit: false,
                hf_bit: false,
                cf_bit: old(self).registers.a / 128 == 1,
                ..old(self).registers
            }),
            final(self).ime == old(self).ime && final(self).halt == old(self).halt && final(self).ei_pending == old(self).ei_pending,
    {
        let a = self.registers.a;
        let c: u8 = if self.registers.cf() {
            1
        } else {
            0
        };
        self.registers.a = (a % 128) * 2 + c;
        self.registers.set_zf(false);
        self.registers.set_nf(false);
        self.registers.set_hf(false);
        self.registers.set_cf(a / 128 == 1);
        FETCH_T_CYCLES
    }

    /// RRCA: RRC on A with Z forced clear.
    pub fn rrca(&mut self) -> (cycles: TCycles)
        ensures
            cycles == FETCH_T_CYCLES,
            final(self).registers == (Registers {
                a: spec_rrc(old(self).registers.a),
                zf_bit: false,
                nf_bit: false,
                hf_bit: false,
                cf_bit: old(self).registers.a % 2 == 1,
                ..old(self).registers
            }),
            final(self).ime == old(self).ime && final(self).halt == old(self).halt && final(self).ei_pending == old(self).ei_pending,
    {
        let a = self.registers.a;
        self.registers.a = a / 2 + (a % 2) * 128;
        self.registers.set_zf(false);
        self.registers.set_nf(false);
        self.registers.set_hf(false);
        self.registers.set_cf(a % 2 == 1);
        FETCH_T_CYCLES
    }

    /// RRA: RR on A with Z forced clear.
    pub fn rra(&mut self) -> (cycles: TCycles)
        ensures
            cycles == FETCH_T_CYCLES,
            final(self).registers == (Registers {
                a: spec_rr(old(self).registers.a, old(self).registers.cf_bit),
                zf_bit: false,
                nf_bit: false,
                hf_bit: false,
                cf_bit: old(self).registers.a % 2 == 1,
                ..old(self).registers
            }),
            final(self).ime == old(self).ime && final(self).halt == old(self).halt && final(self).ei_pending == old(self).ei_pending,
    {
        let a = self.registers.a;
        let c: u8 = if self.registers.cf() {
            128
        } else {
            0
        };
        self.registers.a = a / 2 + c;
        self.registers.set_zf(false);
        self.registers.set_nf(false);
        self.registers.set_hf(false);
        self.registers.set_cf(a % 2 == 1);
        FETCH_T_CYCLES
    }

    /// RLC through a read-modify-write operand.
    pub fn rlc(&mut self, mmu: &mut Mmu, io: Addr8) -> (cycles: TCycles)
        requires
            old(mmu).inv(),
        ensures
            final(mmu).inv(),
            cycles == FETCH_T_CYCLES + spec_rmw_cycles(io),
            ({
                let v = spec_rmw_value(old(self).registers, old(mmu)@, io);
                let res = spec_rot_result(RotKind::Rlc, v, old(self).registers.cf_bit);
                let regs2 = (Registers {
                    zf_bit: res == 0,
                    nf_bit: false,
                    hf_bit: false,
                    cf_bit: spec_rot_carry(RotKind::Rlc, v, old(self).registers.cf_bit),
                    ..old(self).registers
                });
                match io {
                    Addr8::Reg(reg) => final(self).registers == spec_set_reg8(regs2, reg, res)
                        && final(mmu)@ == old(mmu)@,
                    Addr8::MemHl => final(self).registers == regs2 && final(mmu)@ == old(mmu)@.spec_write(old(self).registers.spec_read16(Reg16::HL), res),
                }
            }),
            final(self).ime == old(self).ime && final(self).halt == old(self).halt && final(self).ei_pending == old(self).ei_pending,
    {
        self.rot(mmu, io, RotKind::Rlc)
    }

    /// RL through a read-modify-write operand.
    pub fn rl(&mut self, mmu: &mut Mmu, io: Addr8) -> (cycles: TCycles)
        requires
            old(mmu).inv(),
        ensures
            final(mmu).inv(),
            cycles == FETCH_T_CYCLES + spec_rmw_cycles(io),
            ({
                let v = spec_rmw_value(old(self).registers, old(mmu)@, io);
                let res = spec_rot_result(RotKind::Rl, v, old(self).registers.cf_bit);
                let regs2 = (Registers {
                    zf_bit: res == 0,
                    nf_bit: false,
                    hf_bit: false,
                    cf_bit: spec_rot_carry(RotKind::Rl, v, old(self).registers.cf_bit),
                    ..old(self).registers
                });
                match io {
                    Addr8::Reg(reg) => final(self).registers == spec_set_reg8(regs2, reg, res)
                        && final(mmu)@ == old(mmu)@,
                    Addr8::MemHl => final(self).registers == regs2 && final(mmu)@ == old(mmu)@.spec_write(old(self).registers.spec_read16(Reg16::HL), res),
                }
            }),
            final(self).ime == old(self).ime && final(self).halt == old(self).halt && final(self).ei_pending == old(self).ei_pending,
    {
        self.rot(mmu, io, RotKind::Rl)
    }

    /// RRC through a read-modify-write operand.
    pub fn rrc(&mut self, mmu: &mut Mmu, io: Addr8) -> (cycles: TCycles)
        requires
            old(mmu).inv(),
        ensures
            final(mmu).inv(),
            cycles == FETCH_T_CYCLES + spec_rmw_cycles(io),
            ({
                let v = spec_rmw_value(old(self).registers, old(mmu)@, io);
                let res = spec_rot_result(RotKind::Rrc, v, old(self).registers.cf_bit);
                let regs2 = (Registers {
                    zf_bit: res == 0,
                    nf_bit: false,
                    hf_bit: false,
                    cf_bit: spec_rot_carry(RotKind::Rrc, v, old(self).registers.cf_bit),
                    ..old(self).registers
                });
                match io {
                    Addr8::Reg(reg) => final(self).registers == spec_set_reg8(regs2, reg, res)
                        && final(mmu)@ == old(mmu)@,
                    Addr8::MemHl => final(self).registers == regs2 && final(mmu)@ == old(mmu)@.spec_write(old(self).registers.spec_read16(Reg16::HL), res),
                }
            }),
            final(self).ime == old(self).ime && final(self).halt == old(self).halt && final(self).ei_pending == old(self).ei_pending,
    {
        self.rot(mmu, io, RotKind::Rrc)
    }

    /// RR through a read-modify-write operand.
    pub fn rr(&mut self, mmu: &mut Mmu, io: Addr8) -> (cycles: TCycles)
        requires
            old(mmu).inv(),
        ensures
            final(mmu).inv(),
            cycles == FETCH_T_CYCLES + spec_rmw_cycles(io),
            ({
                let v = spec_rmw_value(old(self).registers, old(mmu)@, io);
                let res = spec_rot_result(RotKind::Rr, v, old(self).registers.cf_bit);
                let regs2 = (Registers {
                    zf_bit: res == 0,
                    nf_bit: false,
                    hf_bit: false,
                    cf_bit: spec_rot_carry(RotKind::Rr, v, old(self).registers.cf_bit),
                    ..old(self).registers
                });
                match io {
                    Addr8::Reg(reg) => final(self).registers == spec_set_reg8(regs2, reg, res)
                        && final(mmu)@ == old(mmu)@,
                    Addr8::MemHl => final(self).registers == regs2 && final(mmu)@ == old(mmu)@.spec_write(old(self).registers.spec_read16(Reg16::HL), res),
                }
            }),
            final(self).ime == old(self).ime && final(self).halt == old(self).halt && final(self).ei_pending == old(self).ei_pending,
    {
        self.rot(mmu, io, RotKind::Rr)
    }

    /// SLA through a read-modify-write operand.
    pub fn sla(&mut self, mmu: &mut Mmu, io: Addr8) -> (cycles: TCycles)
        requires
            old(mmu).inv(),
        ensures
            final(mmu).inv(),
            cycles == FETCH_T_CYCLES + spec_rmw_cycles(io),
            ({
                let v = spec_rmw_value(old(self).registers, old(mmu)@, io);
                let res = spec_rot_result(RotKind::Sla, v, old(self).registers.cf_bit);
                let regs2 = (Registers {
                    zf_bit: res == 0,
                    nf_bit: false,
                    hf_bit: false,
                    cf_bit: spec_rot_carry(RotKind::Sla, v, old(self).registers.cf_bit),
                    ..old(self).registers
                });
                match io {
                    Addr8::Reg(reg) => final(self).registers == spec_set_reg8(regs2, reg, res)
                        && final(mmu)@ == old(mmu)@,
                    Addr8::MemHl => final(self).registers == regs2 && final(mmu)@ == old(mmu)@.spec_write(old(self).registers.spec_read16(Reg16::HL), res),
                }
            }),
            final(self).ime == old(self).ime && final(self).halt == old(self).halt && final(self).ei_pending == old(self).ei_pending,
    {
        self.rot(mmu, io, RotKind::Sla)
    }

    /// SRA through a read-modify-write operand.
    pub fn sra(&mut self, mmu: &mut Mmu, io: Addr8) -> (cycles: TCycles)
        requires
            old(mmu).inv(),
        ensures
            final(mmu).inv(),
            cycles == FETCH_T_CYCLES + spec_rmw_cycles(io),
            ({
                let v = spec_rmw_value(old(self).registers, old(mmu)@, io);
                let res = spec_rot_result(RotKind::Sra, v, old(self).registers.cf_bit);
                let regs2 = (Registers {
                    zf_bit: res == 0,
                    nf_bit: false,
                    hf_bit: false,
                    cf_bit: spec_rot_carry(RotKind::Sra, v, old(self).registers.cf_bit),
                    ..old(self).registers
                });
                match io {
                    Addr8::Reg(reg) => final(self).registers == spec_set_reg8(regs2, reg, res)
                        && final(mmu)@ == old(mmu)@,
                    Addr8::MemHl => final(self).registers == regs2 && final(mmu)@ == old(mmu)@.spec_write(old(self).registers.spec_read16(Reg16::HL), res),
                }
            }),
            final(self).ime == old(self).ime && final(self).halt == old(self).halt && final(self).ei_pending == old(self).ei_pending,
    {
        self.rot(mmu, io, RotKind::Sra)
    }

    /// SRL through a read-modify-write operand.
    pub fn srl(&mut self, mmu: &mut Mmu, io: Addr8) -> (cycles: TCycles)
        requires
            old(mmu).inv(),
        ensures
            final(mmu).inv(),
            cycles == FETCH_T_CYCLES + spec_rmw_cycles(io),
            ({
                let v = spec_rmw_value(old(self).registers, old(mmu)@, io);
                let res = spec_rot_result(RotKind::Srl, v, old(self).registers.cf_bit);
                let regs2 = (Registers {
                    zf_bit: res == 0,
                    nf_bit: false,
                    hf_bit: false,
                    cf_bit: spec_rot_carry(RotKind::Srl, v, old(self).registers.cf_bit),
                    ..old(self).registers
                });
                match io {
                    Addr8::Reg(reg) => final(self).registers == spec_set_reg8(regs2, reg, res)
                        && final(mmu)@ == old(mmu)@,
                    Addr8::MemHl => final(self).registers == regs2 && final(mmu)@ == old(mmu)@.spec_write(old(self).registers.spec_read16(Reg16::HL), res),
                }
            }),
            final(self).ime == old(self).ime && final(self).halt == old(self).halt && final(self).ei_pending == old(self).ei_pending,
    {
        self.rot(mmu, io, RotKind::Srl)
    }

    /// JP nn.
    pub fn jp(&mut self, mmu: &Mmu) -> (cycles: TCycles)
        requires
            mmu.inv(),
        ensures
            cycles == 16,
            final(self).registers == (Registers {
                pc: spec_read_word(mmu@, old(self).registers.pc),
                ..old(self).registers
            }),
            final(self).ime == old(self).ime && final(self).halt == old(self).halt && final(self).ei_pending == old(self).ei_pending,
    {
        let addr = self.fetch_word(mmu);
        self.registers.pc = addr;
        16
    }

    /// JP cc,nn: taken 16 cycles, untaken 12.
    pub fn jp_cc(&mut self, mmu: &Mmu, condition: Condition) -> (cycles: TCycles)
        requires
            mmu.inv(),
        ensures
            final(self).registers == (Registers {
                pc: if spec_condition(old(self).registers, condition) {
                    spec_read_word(mmu@, old(self).registers.pc)
                } else {
                    ((old(self).registers.pc + 2) % 0x10000) as u16
                },
                ..old(self).registers
            }),
            cycles == (if spec_condition(old(self).registers, condition) {
                16 as int
            } else {
                12
            }),
            final(self).ime == old(self).ime && final(self).halt == old(self).halt && final(self).ei_pending == old(self).ei_pending,
    {
        let taken = self.test_condition(condition);
        let addr = self.fetch_word(mmu);
        if taken {
            self.registers.pc = addr;
            16
        } else {
            12
        }
    }

    /// JP (HL).
    pub fn jp_hl(&mut self) -> (cycles: TCycles)
        ensures
            cycles == FETCH_T_CYCLES,
            final(self).registers == (Registers {
                pc: old(self).registers.spec_read16(Reg16::HL),
                ..old(self).registers
            }),
            final(self).ime == old(self).ime && final(self).halt == old(self).halt && final(self).ei_pending == old(self).ei_pending,
    {
        self.registers.pc = self.registers.read16(Reg16::HL);
        FETCH_T_CYCLES
    }

    /// JR e: the signed displacement is added to the address after it.
    pub fn jr(&mut self, mmu: &Mmu) -> (cycles: TCycles)
        requires
            mmu.inv(),
        ensures
            cycles == 12,
            final(self).registers == (Registers {
                pc: spec_jr_target(old(self).registers.pc, mmu@.spec_read(old(self).registers.pc)),
                ..old(self).registers
            }),
            final(self).ime == old(self).ime && final(self).halt == old(self).halt && final(self).ei_pending == old(self).ei_pending,
    {
        let off = self.fetch_byte(mmu);
        let target = jr_target(self.registers.pc, off);
        self.registers.pc = target;
        12
    }

    /// JR cc,e: taken 12 cycles, untaken 8.
    pub fn jr_cc(&mut self, mmu: &Mmu, condition: Condition) -> (cycles: TCycles)
        requires
            mmu.inv(),
        ensures
            final(self).registers == (Registers {
                pc: if spec_condition(old(self).registers, condition) {
                    spec_jr_target(
                        old(self).registers.pc,
                        mmu@.spec_read(old(self).registers.pc),
                    )
                } else {
                    ((old(self).registers.pc + 1) % 0x10000) as u16
                },
                ..old(self).registers
            }),
            cycles == (if spec_condition(old(self).registers, condition) {
                12 as int
            } else {
                8
            }),
            final(self).ime == old(self).ime && final(self).halt == old(self).halt && final(self).ei_pending == old(self).ei_pending,
    {
        let taken = self.test_condition(condition);
        let off = self.fetch_byte(mmu);
        if taken {
            let target = jr_target(self.registers.pc, off);
            self.registers.pc = target;
            12
        } else {
            8
        }
    }

    /// CALL nn: push the return address and jump.
    pub fn call(&mut self, mmu: &mut Mmu) -> (cycles: TCycles)
        requires
            old(mmu).inv(),
        ensures
            final(mmu).inv(),
            cycles == 24,
            ({
                let ret = ((old(self).registers.pc + 2) % 0x10000) as u16;
                let sp2 = ((old(self).registers.sp + 0xFFFE) % 0x10000) as u16;
                &&& final(self).registers == (Registers {
                    pc: spec_read_word(old(mmu)@, old(self).registers.pc),
                    sp: sp2,
                    ..old(self).registers
                })
                &&& final(mmu)@ == old(mmu)@.spec_write(sp2, (ret % 256) as u8).spec_write(
                    ((old(self).registers.sp + 0xFFFF) % 0x10000) as u16,
                    (ret / 256) as u8,
                )
            }),
            final(self).ime == old(self).ime && final(self).halt == old(self).halt && final(self).ei_pending == old(self).ei_pending,
    {
        let addr = self.fetch_word(mmu);
        let ret = self.registers.pc;
        self.push(mmu, ret);
        self.registers.pc = addr;
        24
    }

    /// CALL cc,nn: taken 24 cycles, untaken 12.
    pub fn call_cc(&mut self, mmu: &mut Mmu, condition: Condition) -> (cycles: TCycles)
        requires
            old(mmu).inv(),
        ensures
            final(mmu).inv(),
            cycles == (if spec_condition(old(self).registers, condition) {
                24 as int
            } else {
                12
            }),
            !spec_condition(old(self).registers, condition) ==> final(self).registers == (
            Registers { pc: ((old(self).registers.pc + 2) % 0x10000) as u16,
                ..old(self).registers }) && final(mmu)@ == old(mmu)@,
            spec_condition(old(self).registers, condition) ==> ({
                let ret = ((old(self).registers.pc + 2) % 0x10000) as u16;
                let sp2 = ((old(self).registers.sp + 0xFFFE) % 0x10000) as u16;
                &&& final(self).registers == (Registers {
                    pc: spec_read_word(old(mmu)@, old(self).registers.pc),
                    sp: sp2,
                    ..old(self).registers
                })
                &&& final(mmu)@ == old(mmu)@.spec_write(sp2, (ret % 256) as u8).spec_write(
                    ((old(self).registers.sp + 0xFFFF) % 0x10000) as u16,
                    (ret / 256) as u8,
                )
            }),
            final(self).ime == old(self).ime && final(self).halt == old(self).halt && final(self).ei_pending == old(self).ei_pending,
    {
        let taken = self.test_condition(condition);
        let addr = self.fetch_word(mmu);
        if taken {
            let ret = self.registers.pc;
            self.push(mmu, ret);
            self.registers.pc = addr;
            24
        } else {
            12
        }
    }

    /// RST n: push the return address and jump to the fixed vector.
    pub fn rst(&mut self, mmu: &mut Mmu, addr: u8) -> (cycles: TCycles)
        requires
            old(mmu).inv(),
        ensures
            final(mmu).inv(),
            cycles == 16,
            ({
                let sp2 = ((old(self).registers.sp + 0xFFFE) % 0x10000) as u16;
                &&& final(self).registers == (Registers {
                    pc: addr as u16,
                    sp: sp2,
                    ..old(self).registers
                })
                &&& final(mmu)@ == old(mmu)@.spec_write(
                    sp2,
                    (old(self).registers.pc % 256) as u8,
                ).spec_write(
                    ((old(self).registers.sp + 0xFFFF) % 0x10000) as u16,
                    (old(self).registers.pc / 256) as u8,
                )
            }),
            final(self).ime == old(self).ime && final(self).halt == old(self).halt && final(self).ei_pending == old(self).ei_pending,
    {
        let pc = self.registers.pc;
        self.push(mmu, pc);
        self.registers.pc = addr as u16;
        16
    }

    /// RET.
    pub fn ret(&mut self, mmu: &Mmu) -> (cycles: TCycles)
        requires
            mmu.inv(),
        ensures
            cycles == 16,
            final(self).registers == (Registers {
                pc: spec_read_word(mmu@, old(self).registers.sp),
                sp: ((old(self).registers.sp + 2) % 0x10000) as u16,
                ..old(self).registers
            }),
            final(self).ime == old(self).ime && final(self).halt == old(self).halt && final(self).ei_pending == old(self).ei_pending,
    {
        let addr = self.pop(mmu);
        self.registers.pc = addr;
        16
    }

    /// RET cc: taken 20 cycles, untaken 8.
    pub fn ret_cc(&mut self, mmu: &Mmu, condition: Condition) -> (cycles: TCycles)
        requires
            mmu.inv(),
        ensures
            cycles == (if spec_condition(old(self).registers, condition) {
                20 as int
            } else {
                8
            }),
            !spec_condition(old(self).registers, condition) ==> *final(self) == *old(self),
            spec_condition(old(self).registers, condition) ==> final(self).registers == (
            Registers {
                pc: spec_read_word(mmu@, old(self).registers.sp),
                sp: ((old(self).registers.sp + 2) % 0x10000) as u16,
                ..old(self).registers
            }),
            final(self).ime == old(self).ime && final(self).halt == old(self).halt && final(self).ei_pending == old(self).ei_pending,
    {
        if self.test_condition(condition) {
            let addr = self.pop(mmu);
            self.registers.pc = addr;
            20
        } else {
            8
        }
    }

    /// RETI: RET and enable interrupts at once.
    pub fn reti(&mut self, mmu: &Mmu) -> (cycles: TCycles)
        requires
            mmu.inv(),
        ensures
            cycles == 16,
            final(self).registers == (Registers {
                pc: spec_read_word(mmu@, old(self).registers.sp),
                sp: ((old(self).registers.sp + 2) % 0x10000) as u16,
                ..old(self).registers
            }),
            final(self).ime,
            final(self).halt == old(self).halt && final(self).ei_pending == old(self).ei_pending,
    {
        let addr = self.pop(mmu);
        self.registers.pc = addr;
        self.ime = true;
        16
    }

    /// LD rr,nn.
    pub fn load16_imm(&mut self, mmu: &Mmu, reg: Reg16) -> (cycles: TCycles)
        requires
            mmu.inv(),
            !(reg is AF),
        ensures
            cycles == 12,
            ({
                let v = spec_read_word(mmu@, old(self).registers.pc);
                let stepped = (Registers { pc: ((old(self).registers.pc + 2) % 0x10000) as u16,
                    ..old(self).registers });
                final(self).registers == (match reg {
                    Reg16::BC => Registers { b: (v / 256) as u8, c: (v % 256) as u8, ..stepped },
                    Reg16::DE => Registers { d: (v / 256) as u8, e: (v % 256) as u8, ..stepped },
                    Reg16::HL => Registers { h: (v / 256) as u8, l: (v % 256) as u8, ..stepped },
                    _ => Registers { sp: v, ..stepped },
                })
            }),
            final(self).ime == old(self).ime && final(self).halt == old(self).halt && final(self).ei_pending == old(self).ei_pending,
    {
        let immediate_val = self.fetch_word(mmu);
        self.registers.write16(reg, immediate_val);
        12
    }

    /// LD SP,HL.
    pub fn load16_sp_hl(&mut self) -> (cycles: TCycles)
        ensures
            cycles == 8,
            final(self).registers == (Registers {
                sp: old(self).registers.spec_read16(Reg16::HL),
                ..old(self).registers
            }),
            final(self).ime == old(self).ime && final(self).halt == old(self).halt && final(self).ei_pending == old(self).ei_pending,
    {
        let hl = self.registers.read16(Reg16::HL);
        self.registers.write16(Reg16::SP, hl);
        8
    }

    /// LD HL,SP+e: H and C from the unsigned low-byte addition, Z and N
    /// clear.
    pub fn load16_hl_sp_n(&mut self, mmu: &Mmu) -> (cycles: TCycles)
        requires
            mmu.inv(),
        ensures
            cycles == 12,
            ({
                let off = spec_sign_extend(mmu@.spec_read(old(self).registers.pc));
                let sum = ((old(self).registers.sp + off) % 0x10000) as u16;
                final(self).registers == (Registers {
                    pc: ((old(self).registers.pc + 1) % 0x10000) as u16,
                    h: (sum / 256) as u8,
                    l: (sum % 256) as u8,
                    zf_bit: false,
                    nf_bit: false,
                    hf_bit: crate::utils::spec_add_carry_bit(
                        3,
                        old(self).registers.sp as int,
                        off as int,
                    ),
                    cf_bit: crate::utils::spec_add_carry_bit(
                        7,
                        old(self).registers.sp as int,
                        off as int,
                    ),
                    ..old(self).registers
                })
            }),
            final(self).ime == old(self).ime && final(self).halt == old(self).halt && final(self).ei_pending == old(self).ei_pending,
    {
        let b = self.fetch_byte(mmu);
        let imm_val = sign_extend(b);
        let sp = self.registers.sp;
        self.registers.write16(Reg16::HL, sp.wrapping_add(imm_val));
        self.registers.set_zf(false);
        self.registers.set_nf(false);
        let hf = crate::utils::add_carry_bit_3(sp, imm_val);
        self.registers.set_hf(hf);
        let cf = crate::utils::add_carry_bit_7(sp, imm_val);
        self.registers.set_cf(cf);
        12
    }

    /// LD (nn),SP: store the stack pointer little-endian.
    pub fn load16_nn_sp(&mut self, mmu: &mut Mmu) -> (cycles: TCycles)
        requires
            old(mmu).inv(),
        ensures
            final(mmu).inv(),
            cycles == 20,
            ({
                let addr = spec_read_word(old(mmu)@, old(self).registers.pc);
                &&& final(self).registers == (Registers {
                    pc: ((old(self).registers.pc + 2) % 0x10000) as u16,
                    ..old(self).registers
                })
                &&& final(mmu)@ == old(mmu)@.spec_write(
                    addr,
                    (old(self).registers.sp % 256) as u8,
                ).spec_write(((addr + 1) % 0x10000) as u16, (old(self).registers.sp / 256) as u8)
            }),
            final(self).ime == old(self).ime && final(self).halt == old(self).halt && final(self).ei_pending == old(self).ei_pending,
    {
        let addr = self.fetch_word(mmu);
        let val = self.registers.sp;
        mmu.write_word(addr, val);
        20
    }

    /// PUSH rr.
    pub fn push16(&mut self, mmu: &mut Mmu, reg: Reg16) -> (cycles: TCycles)
        requires
            old(mmu).inv(),
        ensures
            final(mmu).inv(),
            cycles == 16,
            ({
                let v = old(self).registers.spec_read16(reg);
                let sp2 = ((old(self).registers.sp + 0xFFFE) % 0x10000) as u16;
                &&& final(self).registers == (Registers { sp: sp2, ..old(self).registers })
                &&& final(mmu)@ == old(mmu)@.spec_write(sp2, (v % 256) as u8).spec_write(
                    ((old(self).registers.sp + 0xFFFF) % 0x10000) as u16,
                    (v / 256) as u8,
                )
            }),
            final(self).ime == old(self).ime && final(self).halt == old(self).halt && final(self).ei_pending == old(self).ei_pending,
    {
        let val = self.registers.read16(reg);
        self.push(mmu, val);
        16
    }

    /// POP rr; popping into AF drops the low nibble of the flags byte.
    pub fn pop16(&mut self, mmu: &Mmu, reg: Reg16) -> (cycles: TCycles)
        requires
            mmu.inv(),
            !(reg is SP),
        ensures
            cycles == 16,
            ({
                let v = spec_read_word(mmu@, old(self).registers.sp);
                let stepped = (Registers { sp: ((old(self).registers.sp + 2) % 0x10000) as u16,
                    ..old(self).registers });
                final(self).registers == (match reg {
                    Reg16::AF => Registers {
                        a: (v / 256) as u8,
                        zf_bit: v / 128 % 2 == 1,
                        nf_bit: v / 64 % 2 == 1,
                        hf_bit: v / 32 % 2 == 1,
                        cf_bit: v / 16 % 2 == 1,
                        ..stepped
                    },
                    Reg16::BC => Registers { b: (v / 256) as u8, c: (v % 256) as u8, ..stepped },
                    Reg16::DE => Registers { d: (v / 256) as u8, e: (v % 256) as u8, ..stepped },
                    _ => Registers { h: (v / 256) as u8, l: (v % 256) as u8, ..stepped },
                })
            }),
            final(self).ime == old(self).ime && final(self).halt == old(self).halt && final(self).ei_pending == old(self).ei_pending,
    {
        let val = self.pop(mmu);
        self.registers.write16(reg, val);
        16
    }

    /// ADD HL,rr: N clear, H and C from the bit-11 and bit-15 carries, Z
    /// untouched.
    pub fn add16(&mut self, reg: Reg16) -> (cycles: TCycles)
        ensures
            cycles == 8,
            ({
                let hl = old(self).registers.spec_read16(Reg16::HL);
                let v = old(self).registers.spec_read16(reg);
                let sum = ((hl + v) % 0x10000) as u16;
                final(self).registers == (Registers {
                    h: (sum / 256) as u8,
                    l: (sum % 256) as u8,
                    nf_bit: false,
                    hf_bit: crate::utils::spec_add_carry_bit(11, hl as int, v as int),
                    cf_bit: hl + v > 0xFFFF,
                    ..old(self).registers
                })
            }),
            final(self).ime == old(self).ime && final(self).halt == old(self).halt && final(self).ei_pending == old(self).ei_pending,
    {
        let hl = self.registers.read16(Reg16::HL);
        let val = self.registers.read16(reg);
        let res = ((hl as u32 + val as u32) % 0x10000) as u16;
        self.registers.set_nf(false);
        let hf = crate::utils::add_carry_bit_11(hl, val);
        self.registers.set_hf(hf);
        self.registers.set_cf(hl as u32 + val as u32 > 0xFFFF);
        self.registers.write16(Reg16::HL, res);
        8
    }

    /// ADD SP,e: Z and N clear, H and C from the unsigned low-byte
    /// addition.
    pub fn add16_sp_n(&mut self, mmu: &Mmu) -> (cycles: TCycles)
        requires
            mmu.inv(),
        ensures
            cycles == 16,
            ({
                let off = spec_sign_extend(mmu@.spec_read(old(self).registers.pc));
                final(self).registers == (Registers {
                    pc: ((old(self).registers.pc + 1) % 0x10000) as u16,
                    sp: ((old(self).registers.sp + off) % 0x10000) as u16,
                    zf_bit: false,
                    nf_bit: false,
                    hf_bit: crate::utils::spec_add_carry_bit(
                        3,
                        old(self).registers.sp as int,
                        off as int,
                    ),
                    cf_bit: crate::utils::spec_add_carry_bit(
                        7,
                        old(self).registers.sp as int,
                        off as int,
                    ),
                    ..old(self).registers
                })
            }),
            final(self).ime == old(self).ime && final(self).halt == old(self).halt && final(self).ei_pending == old(self).ei_pending,
    {
        let sp = self.registers.read16(Reg16::SP);
        let b = self.fetch_byte(mmu);
        let val = sign_extend(b);
        let res = sp.wrapping_add(val);
        self.registers.set_zf(false);
        self.registers.set_nf(false);
        let hf = crate::utils::add_carry_bit_3(sp, val);
        self.registers.set_hf(hf);
        let cf = crate::utils::add_carry_bit_7(sp, val);
        self.registers.set_cf(cf);
        self.registers.write16(Reg16::SP, res);
        16
    }

    /// INC rr: no flags.
    pub fn inc16(&mut self, reg: Reg16) -> (cycles: TCycles)
        requires
            !(reg is AF),
        ensures
            cycles == 8,
            ({
                let v = ((old(self).registers.spec_read16(reg) + 1) % 0x10000) as u16;
                final(self).registers == (match reg {
                    Reg16::BC => Registers { b: (v / 256) as u8, c: (v % 256) as u8,
                        ..old(self).registers },
                    Reg16::DE => Registers { d: (v / 256) as u8, e: (v % 256) as u8,
                        ..old(self).registers },
                    Reg16::HL => Registers { h: (v / 256) as u8, l: (v % 256) as u8,
                        ..old(self).registers },
                    _ => Registers { sp: v, ..old(self).registers },
                })
            }),
            final(self).ime == old(self).ime && final(self).halt == old(self).halt && final(self).ei_pending == old(self).ei_pending,
    {
        let val = self.registers.read16(reg).wrapping_add(1);
        self.registers.write16(reg, val);
        8
    }

    /// DEC rr: no flags.
    pub fn dec16(&mut self, reg: Reg16) -> (cycles: TCycles)
        requires
            !(reg is AF),
        ensures
            cycles == 8,
            ({
                let v = ((old(self).registers.spec_read16(reg) + 0xFFFF) % 0x10000) as u16;
                final(self).registers == (match reg {
                    Reg16::BC => Registers { b: (v / 256) as u8, c: (v % 256) as u8,
                        ..old(self).registers },
                    Reg16::DE => Registers { d: (v / 256) as u8, e: (v % 256) as u8,
                        ..old(self).registers },
                    Reg16::HL => Registers { h: (v / 256) as u8, l: (v % 256) as u8,
                        ..old(self).registers },
                    _ => Registers { sp: v, ..old(self).registers },
                })
            }),
            final(self).ime == old(self).ime && final(self).halt == old(self).halt && final(self).ei_pending == old(self).ei_pending,
    {
        let val = self.registers.read16(reg).wrapping_sub(1);
        self.registers.write16(reg, val);
        8
    }

    /// The table filler for the eleven undefined opcodes; the dispatcher's
    /// contract keeps them out of reach, so this is never executed.
    pub(crate) fn undefined(&mut self, opcode: u8) -> (cycles: TCycles)
        ensures
            cycles == FETCH_T_CYCLES,
            *final(self) == *old(self),
    {
        let _ = opcode;
        FETCH_T_CYCLES
    }
}

/// A signed 8-bit displacement as the 16-bit two's-complement addend.
pub open spec fn spec_sign_extend(b: u8) -> u16 {
    if b < 128 {
        b as u16
    } else {
        (b + 0xFF00) as u16
    }
}

/// A signed 8-bit displacement as the 16-bit two's-complement addend.
pub fn sign_extend(b: u8) -> (r: u16)
    ensures
        r == spec_sign_extend(b),
{
    if b < 128 {
        b as u16
    } else {
        b as u16 + 0xFF00
    }
}

/// The target of a relative jump: the address after the displacement byte
/// plus the sign-extended displacement, wrapping.
pub open spec fn spec_jr_target(pc: u16, off: u8) -> u16 {
    ((pc + 1 + spec_sign_extend(off)) % 0x10000) as u16
}

/// The target of a relative jump, computed from the address of the
/// displacement byte.
pub fn jr_target(pc_after: u16, off: u8) -> (r: u16)
    ensures
        ((pc_after + spec_sign_extend(off)) % 0x10000) as u16 == r,
{
    pc_after.wrapping_add(sign_extend(off))
}

} // verus!
