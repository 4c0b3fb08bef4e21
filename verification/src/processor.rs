//! The 8-bit processor: register file, ALU, fetch and addressing helpers,
//! the stack, and interrupt dispatch. The instruction families live in
//! `execute`, the opcode tables in `decode`.

pub mod decode;
pub mod execute;
pub mod registers;

use vstd::prelude::*;

use crate::ic::Ic;
use crate::mmu::{Mmu, MmuView};
use crate::processor::registers::{Reg16, Reg8, Registers};

verus! {

/// One period of the master clock; all instruction costs are multiples of 4.
pub type TCycles = u32;

pub const T_CYCLE_FREQUENCY: u32 = 4194304;

pub const ZERO_PAGE_ADDR: u16 = 0xFF00;

pub const FETCH_T_CYCLES: TCycles = 4;

pub const MEM_ACCESS_T_CYCLES_8: TCycles = 4;

pub const MEM_ACCESS_T_CYCLES_16: TCycles = 8;

/// An 8-bit operand source: a register, the byte after the opcode, or a
/// byte of memory.
#[derive(Clone, Copy, Debug)]
pub enum In8 {
    R(Reg8),
    Imm,
    Mem(Addr),
}

/// An 8-bit operand destination: a register or a byte of memory.
#[derive(Clone, Copy, Debug)]
pub enum Out8 {
    R(Reg8),
    Mem(Addr),
}

/// How a memory operand's address is formed.
#[derive(Clone, Copy, Debug)]
pub enum Addr {
    BC,
    DE,
    HL,
    HLD,
    HLI,
    Immediate16,
    ZeroPage,
    ZeroPageAndC,
}

/// A conditional instruction's condition: a flag, possibly negated.
#[derive(Clone, Copy, Debug)]
pub enum Condition {
    Zero,
    NotZero,
    Carry,
    NotCarry,
}

pub struct Processor {
    pub registers: Registers,
    /// The interrupt master enable.
    pub ime: bool,
    pub halt: bool,
    /// Set by EI: the master enable turns on only after the following
    /// instruction.
    pub ei_pending: bool,
}

/// The value of an 8-bit register.
pub open spec fn spec_reg8(regs: Registers, reg: Reg8) -> u8 {
    match reg {
        Reg8::A => regs.a,
        Reg8::B => regs.b,
        Reg8::C => regs.c,
        Reg8::D => regs.d,
        Reg8::E => regs.e,
        Reg8::H => regs.h,
        Reg8::L => regs.l,
    }
}

/// The register file with one 8-bit register replaced.
pub open spec fn spec_set_reg8(regs: Registers, reg: Reg8, val: u8) -> Registers {
    match reg {
        Reg8::A => Registers { a: val, ..regs },
        Reg8::B => Registers { b: val, ..regs },
        Reg8::C => Registers { c: val, ..regs },
        Reg8::D => Registers { d: val, ..regs },
        Reg8::E => Registers { e: val, ..regs },
        Reg8::H => Registers { h: val, ..regs },
        Reg8::L => Registers { l: val, ..regs },
    }
}

/// A little-endian word read off the bus.
pub open spec fn spec_read_word(m: MmuView, addr: u16) -> u16 {
    (m.spec_read(addr) + m.spec_read(((addr + 1) % 0x10000) as u16) * 256) as u16
}

/// The address a memory operand resolves to.
pub open spec fn spec_addr_value(regs: Registers, m: MmuView, a: Addr) -> u16 {
    match a {
        Addr::BC => regs.spec_read16(Reg16::BC),
        Addr::DE => regs.spec_read16(Reg16::DE),
        Addr::HL => regs.spec_read16(Reg16::HL),
        Addr::HLD => regs.spec_read16(Reg16::HL),
        Addr::HLI => regs.spec_read16(Reg16::HL),
        Addr::Immediate16 => spec_read_word(m, regs.pc),
        Addr::ZeroPage => (0xFF00 + m.spec_read(regs.pc)) as u16,
        Addr::ZeroPageAndC => (0xFF00 + regs.c) as u16,
    }
}

/// The register file after a memory operand is resolved: the post-access
/// decrement or increment of HL, and the program counter moved past any
/// immediate bytes.
pub open spec fn spec_addr_regs(regs: Registers, a: Addr) -> Registers {
    match a {
        Addr::BC => regs,
        Addr::DE => regs,
        Addr::HL => regs,
        Addr::HLD => {
            let hl = (regs.spec_read16(Reg16::HL) + 0xFFFF) % 0x10000;
            Registers { h: (hl / 256) as u8, l: (hl % 256) as u8, ..regs }
        }
        Addr::HLI => {
            let hl = (regs.spec_read16(Reg16::HL) + 1) % 0x10000;
            Registers { h: (hl / 256) as u8, l: (hl % 256) as u8, ..regs }
        }
        Addr::Immediate16 => Registers { pc: ((regs.pc + 2) % 0x10000) as u16, ..regs },
        Addr::ZeroPage => Registers { pc: ((regs.pc + 1) % 0x10000) as u16, ..regs },
        Addr::ZeroPageAndC => regs,
    }
}

/// The extra T-cycles that forming a memory operand's address costs.
pub open spec fn spec_addr_cycles(a: Addr) -> int {
    match a {
        Addr::Immediate16 => 8,
        Addr::ZeroPage => 4,
        _ => 0,
    }
}

/// The value an 8-bit source yields.
pub open spec fn spec_in8_value(regs: Registers, m: MmuView, src: In8) -> u8 {
    match src {
        In8::R(r) => spec_reg8(regs, r),
        In8::Imm => m.spec_read(regs.pc),
        In8::Mem(a) => m.spec_read(spec_addr_value(regs, m, a)),
    }
}

/// The register file after an 8-bit source is read.
pub open spec fn spec_in8_regs(regs: Registers, src: In8) -> Registers {
    match src {
        In8::R(_) => regs,
        In8::Imm => Registers { pc: ((regs.pc + 1) % 0x10000) as u16, ..regs },
        In8::Mem(a) => spec_addr_regs(regs, a),
    }
}

/// The T-cycles reading an 8-bit source costs beyond the opcode fetch.
pub open spec fn spec_in8_cycles(src: In8) -> int {
    match src {
        In8::R(_) => 0,
        In8::Imm => 4,
        In8::Mem(a) => spec_addr_cycles(a) + 4,
    }
}

/// The register file after an 8-bit destination is resolved (but before
/// the value lands).
pub open spec fn spec_out8_regs(regs: Registers, dst: Out8) -> Registers {
    match dst {
        Out8::R(_) => regs,
        Out8::Mem(a) => spec_addr_regs(regs, a),
    }
}

/// The T-cycles writing an 8-bit destination costs beyond the opcode fetch.
pub open spec fn spec_out8_cycles(dst: Out8) -> int {
    match dst {
        Out8::R(_) => 0,
        Out8::Mem(a) => spec_addr_cycles(a) + 4,
    }
}

/// Whether a condition holds of the current flags.
pub open spec fn spec_condition(regs: Registers, c: Condition) -> bool {
    match c {
        Condition::Zero => regs.zf_bit,
        Condition::NotZero => !regs.zf_bit,
        Condition::Carry => regs.cf_bit,
        Condition::NotCarry => !regs.cf_bit,
    }
}

/// The result and flags of an 8-bit addition with carry-in: the sum modulo
/// 256; Z set from the result, N clear, H from the low-nibble carry, C
/// from the full carry.
pub open spec fn spec_alu_add(regs: Registers, val: u8, carry: bool) -> Registers {
    let c: int = if carry { 1 } else { 0 };
    let res = ((regs.a + val + c) % 256) as u8;
    Registers {
        a: res,
        zf_bit: res == 0,
        nf_bit: false,
        hf_bit: regs.a % 16 + val % 16 + c > 0xF,
        cf_bit: regs.a + val + c > 0xFF,
        ..regs
    }
}

/// The result and flags of an 8-bit subtraction with borrow-in: the
/// difference modulo 256; Z set from the result, N set, H from the
/// low-nibble borrow, C from the full borrow.
pub open spec fn spec_alu_sub(regs: Registers, val: u8, carry: bool) -> Registers {
    let c: int = if carry { 1 } else { 0 };
    let res = ((regs.a + 512 - val - c) % 256) as u8;
    Registers {
        a: res,
        zf_bit: res == 0,
        nf_bit: true,
        hf_bit: regs.a % 16 < val % 16 + c,
        cf_bit: regs.a < val + c,
        ..regs
    }
}

impl Processor {
    /// Reset state: all registers zero, interrupts enabled, not halted.
    pub fn new() -> (r: Processor)
        ensures
            r.registers == Registers::spec_reset(),
            r.ime,
            !r.halt,
            !r.ei_pending,
    {
        Processor { registers: Registers::new(), ime: true, halt: false, ei_pending: false }
    }

    /// Push a word: the stack pointer drops by two and the word lands
    /// little-endian at the new top.
    #[verifier::rlimit(100)]
    #[verifier::spinoff_prover]
    pub fn push(&mut self, mmu: &mut Mmu, v: u16)
        requires
            old(mmu).inv(),
        ensures
            final(mmu).inv(),
            final(self).registers == (Registers {
                sp: ((old(self).registers.sp + 0xFFFE) % 0x10000) as u16,
                ..old(self).registers
            }),
            final(self).ime == old(self).ime && final(self).halt == old(self).halt && final(self).ei_pending == old(self).ei_pending,
            final(mmu)@ == old(mmu)@.spec_write(
                ((old(self).registers.sp + 0xFFFE) % 0x10000) as u16,
                (v % 256) as u8,
            ).spec_write(
                ((old(self).registers.sp + 0xFFFF) % 0x10000) as u16,
                (v / 256) as u8,
            ),
    {
        let sp = self.registers.read16(Reg16::SP);
        let sp = sp.wrapping_sub(2);
        self.registers.write16(Reg16::SP, sp);
        proof {
            let ghost sp0 = old(self).registers.sp as int;
            assert(((sp0 + 0xFFFE) % 0x10000 + 1) % 0x10000 == (sp0 + 0xFFFF) % 0x10000)
                by (nonlinear_arith)
                requires
                    0 <= sp0 < 0x10000,
            ;
        }
        mmu.write_word(sp, v);
    }

    /// Pop a word: the word at the top of the stack, the stack pointer
    /// raised by two.
    pub fn pop(&mut self, mmu: &Mmu) -> (val: u16)
        requires
            mmu.inv(),
        ensures
            val == spec_read_word(mmu@, old(self).registers.sp),
            final(self).registers == (Registers {
                sp: ((old(self).registers.sp + 2) % 0x10000) as u16,
                ..old(self).registers
            }),
            final(self).ime == old(self).ime && final(self).halt == old(self).halt && final(self).ei_pending == old(self).ei_pending,
    {
        let sp = self.registers.read16(Reg16::SP);
        let val = mmu.read_word(sp);
        self.registers.write16(Reg16::SP, sp.wrapping_add(2));
        val
    }

    /// Read the byte at the program counter and step past it.
    pub fn fetch_byte(&mut self, mmu: &Mmu) -> (b: u8)
        requires
            mmu.inv(),
        ensures
            b == mmu@.spec_read(old(self).registers.pc),
            final(self).registers == (Registers {
                pc: ((old(self).registers.pc + 1) % 0x10000) as u16,
                ..old(self).registers
            }),
            final(self).ime == old(self).ime && final(self).halt == old(self).halt && final(self).ei_pending == old(self).ei_pending,
    {
        let b = mmu.read_byte(self.registers.pc);
        self.registers.pc = self.registers.pc.wrapping_add(1);
        b
    }

    /// Read the word at the program counter and step past it.
    pub fn fetch_word(&mut self, mmu: &Mmu) -> (w: u16)
        requires
            mmu.inv(),
        ensures
            w == spec_read_word(mmu@, old(self).registers.pc),
            final(self).registers == (Registers {
                pc: ((old(self).registers.pc + 2) % 0x10000) as u16,
                ..old(self).registers
            }),
            final(self).ime == old(self).ime && final(self).halt == old(self).halt && final(self).ei_pending == old(self).ei_pending,
    {
        let w = mmu.read_word(self.registers.pc);
        self.registers.pc = self.registers.pc.wrapping_add(2);
        w
    }

    /// Service interrupts after an instruction, per the hardware's rules:
    /// with the master enable off, a pending line only lifts a halt; with
    /// it on, the highest-priority enabled and requested line is consumed,
    /// the program counter is pushed and control moves to the line's
    /// service address, for 20 T-cycles.
    #[verifier::rlimit(100)]
    #[verifier::spinoff_prover]
    pub fn check_interrupt(&mut self, mmu: &mut Mmu) -> (cost: TCycles)
        requires
            old(mmu).inv(),
        ensures
            final(mmu).inv(),
            !old(self).ime && !(old(self).halt && old(mmu)@.ic.spec_pending() is Some) ==> cost
                == 0 && *final(self) == *old(self) && final(mmu)@ == old(mmu)@,
            !old(self).ime && old(self).halt && old(mmu)@.ic.spec_pending() is Some ==> cost == 0
                && *final(self) == (Processor { halt: false, ..*old(self) }) && final(mmu)@ == old(mmu)@,
            old(self).ime && old(mmu)@.ic.spec_pending() is None ==> cost == 0 && *final(self)
                == *old(self) && final(mmu)@ == old(mmu)@,
            old(self).ime && old(mmu)@.ic.spec_pending() is Some ==> {
                let target = old(mmu)@.ic.spec_pending()->0;
                let consumed = MmuView {
                    ic: Ic { line: old(mmu)@.ic.spec_consume_lines(), ..old(mmu)@.ic },
                    ..old(mmu)@
                };
                &&& cost == 20
                &&& *final(self) == (Processor {
                    registers: Registers {
                        pc: target as u16,
                        sp: ((old(self).registers.sp + 0xFFFE) % 0x10000) as u16,
                        ..old(self).registers
                    },
                    ime: false,
                    halt: false,
                    ..*old(self)
                })
                &&& final(mmu)@ == consumed.spec_write(
                    ((old(self).registers.sp + 0xFFFE) % 0x10000) as u16,
                    (old(self).registers.pc % 256) as u8,
                ).spec_write(
                    ((old(self).registers.sp + 0xFFFF) % 0x10000) as u16,
                    (old(self).registers.pc / 256) as u8,
                )
            },
    {
        if !self.ime {
            if self.halt {
                match mmu.ic.peek() {
                    Option::Some(_) => {
                        self.halt = false;
                    }
                    Option::None => {}
                }
            }
            0
        } else {
            let pending = mmu.ic.consume();
            match pending {
                Option::Some(value) => {
                    self.ime = false;
                    let pc = self.registers.pc;
                    self.push(mmu, pc);
                    self.registers.pc = value as u16;
                    self.halt = false;
                    20
                }
                Option::None => 0,
            }
        }
    }

    /// Resolve a memory operand: its address, the extra fetch cycles, and
    /// the post-access register effects.
    pub fn get_addr(&mut self, addr: Addr, mmu: &Mmu) -> (r: (u16, TCycles))
        requires
            mmu.inv(),
        ensures
            r.0 == spec_addr_value(old(self).registers, mmu@, addr),
            r.1 == spec_addr_cycles(addr),
            final(self).registers == spec_addr_regs(old(self).registers, addr),
            final(self).ime == old(self).ime && final(self).halt == old(self).halt && final(self).ei_pending == old(self).ei_pending,
    {
        match addr {
            Addr::BC => (self.registers.read16(Reg16::BC), 0),
            Addr::DE => (self.registers.read16(Reg16::DE), 0),
            Addr::HL => (self.registers.read16(Reg16::HL), 0),
            Addr::HLD => {
                let a = self.registers.read16(Reg16::HL);
                self.registers.write16(Reg16::HL, a.wrapping_sub(1));
                (a, 0)
            }
            Addr::HLI => {
                let a = self.registers.read16(Reg16::HL);
                self.registers.write16(Reg16::HL, a.wrapping_add(1));
                (a, 0)
            }
            Addr::Immediate16 => (self.fetch_word(mmu), MEM_ACCESS_T_CYCLES_16),
            Addr::ZeroPage => {
                let b = self.fetch_byte(mmu);
                (ZERO_PAGE_ADDR + b as u16, MEM_ACCESS_T_CYCLES_8)
            }
            Addr::ZeroPageAndC => (ZERO_PAGE_ADDR + self.registers.c as u16, 0),
        }
    }

    /// Read an 8-bit source.
    pub fn read8(&mut self, src: In8, mmu: &Mmu) -> (r: (u8, TCycles))
        requires
            mmu.inv(),
        ensures
            r.0 == spec_in8_value(old(self).registers, mmu@, src),
            r.1 == spec_in8_cycles(src),
            final(self).registers == spec_in8_regs(old(self).registers, src),
            final(self).ime == old(self).ime && final(self).halt == old(self).halt && final(self).ei_pending == old(self).ei_pending,
    {
        match src {
            In8::R(reg) => {
                let v = match reg {
                    Reg8::A => self.registers.a,
                    Reg8::B => self.registers.b,
                    Reg8::C => self.registers.c,
                    Reg8::D => self.registers.d,
                    Reg8::E => self.registers.e,
                    Reg8::H => self.registers.h,
                    Reg8::L => self.registers.l,
                };
                (v, 0)
            }
            In8::Imm => (self.fetch_byte(mmu), MEM_ACCESS_T_CYCLES_8),
            In8::Mem(a) => {
                let (address, cycles) = self.get_addr(a, mmu);
                (mmu.read_byte(address), cycles + MEM_ACCESS_T_CYCLES_8)
            }
        }
    }

    /// Write an 8-bit destination; memory destinations go through the bus.
    pub fn write8(&mut self, dst: Out8, mmu: &mut Mmu, val: u8) -> (cycles: TCycles)
        requires
            old(mmu).inv(),
        ensures
            final(mmu).inv(),
            cycles == spec_out8_cycles(dst),
            match dst {
                Out8::R(reg) => final(self).registers == spec_set_reg8(
                    spec_out8_regs(old(self).registers, dst),
                    reg,
                    val,
                ) && final(mmu)@ == old(mmu)@,
                Out8::Mem(a) => final(self).registers == spec_out8_regs(old(self).registers, dst)
                    && final(mmu)@ == old(mmu)@.spec_write(
                    spec_addr_value(old(self).registers, old(mmu)@, a),
                    val,
                ),
            },
            final(self).ime == old(self).ime && final(self).halt == old(self).halt && final(self).ei_pending == old(self).ei_pending,
    {
        match dst {
            Out8::R(reg) => {
                match reg {
                    Reg8::A => self.registers.a = val,
                    Reg8::B => self.registers.b = val,
                    Reg8::C => self.registers.c = val,
                    Reg8::D => self.registers.d = val,
                    Reg8::E => self.registers.e = val,
                    Reg8::H => self.registers.h = val,
                    Reg8::L => self.registers.l = val,
                }
                0
            }
            Out8::Mem(a) => {
                let (address, cycles) = self.get_addr(a, mmu);
                mmu.write_byte(address, val);
                cycles + MEM_ACCESS_T_CYCLES_8
            }
        }
    }

    /// Whether a condition holds of the current flags.
    pub fn test_condition(&self, c: Condition) -> (r: bool)
        ensures
            r == spec_condition(self.registers, c),
    {
        match c {
            Condition::Zero => self.registers.zf(),
            Condition::NotZero => !self.registers.zf(),
            Condition::Carry => self.registers.cf(),
            Condition::NotCarry => !self.registers.cf(),
        }
    }

    /// A with `val` (and the carry, for ADC) added: flags per the ADD rule.
    pub fn alu_add(&mut self, val: u8, carry: bool) -> (res: u8)
        ensures
            final(self).registers == spec_alu_add(old(self).registers, val, carry),
            res == spec_alu_add(old(self).registers, val, carry).a,
            final(self).ime == old(self).ime && final(self).halt == old(self).halt && final(self).ei_pending == old(self).ei_pending,
    {
        let c: u16 = if carry {
            1
        } else {
            0
        };
        let a = self.registers.a;
        let res = ((a as u16 + val as u16 + c) % 256) as u8;
        self.registers.set_zf(res == 0);
        self.registers.set_nf(false);
        self.registers.set_hf(a % 16 + val % 16 + (c as u8) > 0xF);
        self.registers.set_cf(a as u16 + val as u16 + c > 0xFF);
        self.registers.a = res;
        res
    }

    /// A with `val` (and the borrow, for SBC) subtracted: flags per the SUB
    /// rule.
    pub fn alu_sub(&mut self, val: u8, carry: bool) -> (res: u8)
        ensures
            final(self).registers == spec_alu_sub(old(self).registers, val, carry),
            res == spec_alu_sub(old(self).registers, val, carry).a,
            final(self).ime == old(self).ime && final(self).halt == old(self).halt && final(self).ei_pending == old(self).ei_pending,
    {
        let c: u16 = if carry {
            1
        } else {
            0
        };
        let a = self.registers.a;
        let res = ((a as u16 + 512 - val as u16 - c) % 256) as u8;
        self.registers.set_zf(res == 0);
        self.registers.set_nf(true);
        self.registers.set_hf((a % 16 as u8) < val % 16 + (c as u8));
        self.registers.set_cf((a as u16) < val as u16 + c);
        self.registers.a = res;
        res
    }
}

impl Registers {
    /// The reset register file: PC 0, SP 0xFFFE, everything else zero and
    /// the flags clear.
    pub open spec fn spec_reset() -> Registers {
        Registers {
            a: 0,
            b: 0,
            c: 0,
            d: 0,
            e: 0,
            h: 0,
            l: 0,
            sp: 0xFFFE,
            pc: 0,
            zf_bit: false,
            nf_bit: false,
            hf_bit: false,
            cf_bit: false,
        }
    }
}

} // verus!
