//! The opcode tables: the 256 primary opcodes and the CB-prefixed
//! bit-manipulation page, dispatched to the instruction families.

use vstd::prelude::*;

use crate::mmu::{Mmu, MmuView};
use crate::processor::execute::{
    spec_bit_mask, spec_daa, spec_jr_target, spec_rmw_cycles, spec_rmw_value, spec_rot_carry,
    spec_rot_result, spec_sign_extend, spec_swap, Addr8, RotKind,
};
use crate::processor::registers::{Reg16, Reg8, Registers};
use crate::ppu::spec_bit;
use crate::processor::{
    spec_addr_value, spec_alu_add, spec_alu_sub, spec_condition, spec_in8_cycles,
    spec_in8_regs, spec_in8_value, spec_out8_cycles, spec_out8_regs, spec_read_word, spec_reg8,
    spec_set_reg8, Addr, Condition, In8, Out8, Processor, TCycles,
};

verus! {

/// Whether an opcode is defined on this processor; 0xD3, 0xDB, 0xDD, 0xE3,
/// 0xE4, 0xEB, 0xEC, 0xED, 0xF4, 0xFC and 0xFD are not, and executing one
/// is a bug in the program being run.
pub open spec fn spec_defined_opcode(op: u8) -> bool {
    !(op == 0xD3 || op == 0xDB || op == 0xDD || op == 0xE3 || op == 0xE4 || op == 0xEB || op
        == 0xEC || op == 0xED || op == 0xF4 || op == 0xFC || op == 0xFD)
}


/// The machine after one instruction of a given family: each `s_` function
/// is the specification-level twin of the instruction family of the same
/// name, over the register file, the bus view and the T-cycle cost.
pub open spec fn s_load(cpu: Processor, m: MmuView, out8: Out8, in8: In8) -> (
    Processor,
    MmuView,
    int,
) {
    let v = spec_in8_value(cpu.registers, m, in8);
    let regs1 = spec_in8_regs(cpu.registers, in8);
    let cost = 4 + spec_in8_cycles(in8) + spec_out8_cycles(out8);
    match out8 {
        Out8::R(reg) => (
            Processor { registers: spec_set_reg8(spec_out8_regs(regs1, out8), reg, v), ..cpu },
            m,
            cost,
        ),
        Out8::Mem(a) => (
            Processor { registers: spec_out8_regs(regs1, out8), ..cpu },
            m.spec_write(spec_addr_value(regs1, m, a), v),
            cost,
        ),
    }
}

pub open spec fn s_add(cpu: Processor, m: MmuView, src: In8) -> (Processor, MmuView, int) {
    (
        Processor {
            registers: spec_alu_add(
                spec_in8_regs(cpu.registers, src),
                spec_in8_value(cpu.registers, m, src),
                false,
            ),
            ..cpu
        },
        m,
        4 + spec_in8_cycles(src),
    )
}

pub open spec fn s_adc(cpu: Processor, m: MmuView, src: In8) -> (Processor, MmuView, int) {
    (
        Processor {
            registers: spec_alu_add(
                spec_in8_regs(cpu.registers, src),
                spec_in8_value(cpu.registers, m, src),
                cpu.registers.cf_bit,
            ),
            ..cpu
        },
        m,
        4 + spec_in8_cycles(src),
    )
}

pub open spec fn s_sub(cpu: Processor, m: MmuView, src: In8) -> (Processor, MmuView, int) {
    (
        Processor {
            registers: spec_alu_sub(
                spec_in8_regs(cpu.registers, src),
                spec_in8_value(cpu.registers, m, src),
                false,
            ),
            ..cpu
        },
        m,
        4 + spec_in8_cycles(src),
    )
}

pub open spec fn s_sbc(cpu: Processor, m: MmuView, src: In8) -> (Processor, MmuView, int) {
    (
        Processor {
            registers: spec_alu_sub(
                spec_in8_regs(cpu.registers, src),
                spec_in8_value(cpu.registers, m, src),
                cpu.registers.cf_bit,
            ),
            ..cpu
        },
        m,
        4 + spec_in8_cycles(src),
    )
}

pub open spec fn s_cp(cpu: Processor, m: MmuView, src: In8) -> (Processor, MmuView, int) {
    let regs1 = spec_in8_regs(cpu.registers, src);
    (
        Processor {
            registers: Registers {
                a: regs1.a,
                ..spec_alu_sub(regs1, spec_in8_value(cpu.registers, m, src), false)
            },
            ..cpu
        },
        m,
        4 + spec_in8_cycles(src),
    )
}

pub open spec fn s_and(cpu: Processor, m: MmuView, src: In8) -> (Processor, MmuView, int) {
    let v = spec_in8_value(cpu.registers, m, src);
    let regs1 = spec_in8_regs(cpu.registers, src);
    (
        Processor {
            registers: Registers {
                a: regs1.a & v,
                zf_bit: (regs1.a & v) == 0,
                nf_bit: false,
                hf_bit: true,
                cf_bit: false,
                ..regs1
            },
            ..cpu
        },
        m,
        4 + spec_in8_cycles(src),
    )
}

pub open spec fn s_or(cpu: Processor, m: MmuView, src: In8) -> (Processor, MmuView, int) {
    let v = spec_in8_value(cpu.registers, m, src);
    let regs1 = spec_in8_regs(cpu.registers, src);
    (
        Processor {
            registers: Registers {
                a: regs1.a | v,
                zf_bit: (regs1.a | v) == 0,
                nf_bit: false,
                hf_bit: false,
                cf_bit: false,
                ..regs1
            },
            ..cpu
        },
        m,
        4 + spec_in8_cycles(src),
    )
}

pub open spec fn s_xor(cpu: Processor, m: MmuView, src: In8) -> (Processor, MmuView, int) {
    let v = spec_in8_value(cpu.registers, m, src);
    let regs1 = spec_in8_regs(cpu.registers, src);
    (
        Processor {
            registers: Registers {
                a: regs1.a ^ v,
                zf_bit: (regs1.a ^ v) == 0,
                nf_bit: false,
                hf_bit: false,
                cf_bit: false,
                ..regs1
            },
            ..cpu
        },
        m,
        4 + spec_in8_cycles(src),
    )
}

/// A read-modify-write family's landing: register operands leave the bus
/// alone, the HL operand writes the result back through the bus.
pub open spec fn s_rmw_land(cpu: Processor, m: MmuView, io: Addr8, regs2: Registers, res: u8) -> (
    Processor,
    MmuView,
    int,
) {
    match io {
        Addr8::Reg(reg) => (
            Processor { registers: spec_set_reg8(regs2, reg, res), ..cpu },
            m,
            4 + spec_rmw_cycles(io),
        ),
        Addr8::MemHl => (
            Processor { registers: regs2, ..cpu },
            m.spec_write(cpu.registers.spec_read16(Reg16::HL), res),
            4 + spec_rmw_cycles(io),
        ),
    }
}

pub open spec fn s_inc8(cpu: Processor, m: MmuView, io: Addr8) -> (Processor, MmuView, int) {
    let v = spec_rmw_value(cpu.registers, m, io);
    let res = ((v + 1) % 256) as u8;
    let regs2 = Registers { zf_bit: res == 0, nf_bit: false, hf_bit: v % 16 == 0xF,
        ..cpu.registers };
    s_rmw_land(cpu, m, io, regs2, res)
}

pub open spec fn s_dec8(cpu: Processor, m: MmuView, io: Addr8) -> (Processor, MmuView, int) {
    let v = spec_rmw_value(cpu.registers, m, io);
    let res = ((v + 255) % 256) as u8;
    let regs2 = Registers { zf_bit: res == 0, nf_bit: true, hf_bit: v % 16 == 0,
        ..cpu.registers };
    s_rmw_land(cpu, m, io, regs2, res)
}

pub open spec fn s_rot(cpu: Processor, m: MmuView, io: Addr8, kind: RotKind) -> (
    Processor,
    MmuView,
    int,
) {
    let v = spec_rmw_value(cpu.registers, m, io);
    let res = spec_rot_result(kind, v, cpu.registers.cf_bit);
    let regs2 = Registers {
        zf_bit: res == 0,
        nf_bit: false,
        hf_bit: false,
        cf_bit: spec_rot_carry(kind, v, cpu.registers.cf_bit),
        ..cpu.registers
    };
    s_rmw_land(cpu, m, io, regs2, res)
}

pub open spec fn s_swap(cpu: Processor, m: MmuView, io: Addr8) -> (Processor, MmuView, int) {
    let v = spec_rmw_value(cpu.registers, m, io);
    let res = spec_swap(v);
    let regs2 = Registers { zf_bit: res == 0, nf_bit: false, hf_bit: false, cf_bit: false,
        ..cpu.registers };
    s_rmw_land(cpu, m, io, regs2, res)
}

pub open spec fn s_bit(cpu: Processor, m: MmuView, io: Addr8, n: u8) -> (Processor, MmuView, int) {
    (
        Processor {
            registers: Registers {
                zf_bit: spec_bit(spec_rmw_value(cpu.registers, m, io), n as int) == 0,
                nf_bit: false,
                hf_bit: true,
                ..cpu.registers
            },
            ..cpu
        },
        m,
        8 + (match io {
            Addr8::Reg(_) => 0 as int,
            Addr8::MemHl => 4,
        }),
    )
}

pub open spec fn s_set(cpu: Processor, m: MmuView, io: Addr8, n: u8) -> (Processor, MmuView, int) {
    let v = spec_rmw_value(cpu.registers, m, io);
    let res = (if spec_bit(v, n as int) == 1 {
        v as int
    } else {
        v + spec_bit_mask(n as int)
    }) as u8;
    let land = s_rmw_land(cpu, m, io, cpu.registers, res);
    (land.0, land.1, 8 + spec_rmw_cycles(io))
}

pub open spec fn s_res(cpu: Processor, m: MmuView, io: Addr8, n: u8) -> (Processor, MmuView, int) {
    let v = spec_rmw_value(cpu.registers, m, io);
    let res = (if spec_bit(v, n as int) == 1 {
        v - spec_bit_mask(n as int)
    } else {
        v as int
    }) as u8;
    let land = s_rmw_land(cpu, m, io, cpu.registers, res);
    (land.0, land.1, 8 + spec_rmw_cycles(io))
}

pub open spec fn s_rot_a(cpu: Processor, m: MmuView, kind: RotKind) -> (Processor, MmuView, int) {
    (
        Processor {
            registers: Registers {
                a: spec_rot_result(kind, cpu.registers.a, cpu.registers.cf_bit),
                zf_bit: false,
                nf_bit: false,
                hf_bit: false,
                cf_bit: spec_rot_carry(kind, cpu.registers.a, cpu.registers.cf_bit),
                ..cpu.registers
            },
            ..cpu
        },
        m,
        4,
    )
}

pub open spec fn s_daa(cpu: Processor, m: MmuView) -> (Processor, MmuView, int) {
    (Processor { registers: spec_daa(cpu.registers), ..cpu }, m, 4)
}

pub open spec fn s_cpl(cpu: Processor, m: MmuView) -> (Processor, MmuView, int) {
    (
        Processor {
            registers: Registers {
                a: (255 - cpu.registers.a) as u8,
                nf_bit: true,
                hf_bit: true,
                ..cpu.registers
            },
            ..cpu
        },
        m,
        4,
    )
}

pub open spec fn s_ccf(cpu: Processor, m: MmuView) -> (Processor, MmuView, int) {
    (
        Processor {
            registers: Registers {
                cf_bit: !cpu.registers.cf_bit,
                nf_bit: false,
                hf_bit: false,
                ..cpu.registers
            },
            ..cpu
        },
        m,
        4,
    )
}

pub open spec fn s_scf(cpu: Processor, m: MmuView) -> (Processor, MmuView, int) {
    (
        Processor {
            registers: Registers { cf_bit: true, nf_bit: false, hf_bit: false, ..cpu.registers },
            ..cpu
        },
        m,
        4,
    )
}

pub open spec fn s_nop(cpu: Processor, m: MmuView) -> (Processor, MmuView, int) {
    (cpu, m, 4)
}

pub open spec fn s_halt(cpu: Processor, m: MmuView) -> (Processor, MmuView, int) {
    (Processor { halt: true, ..cpu }, m, 4)
}

pub open spec fn s_di(cpu: Processor, m: MmuView) -> (Processor, MmuView, int) {
    (Processor { ime: false, ei_pending: false, ..cpu }, m, 4)
}

pub open spec fn s_ei(cpu: Processor, m: MmuView) -> (Processor, MmuView, int) {
    (Processor { ei_pending: true, ..cpu }, m, 4)
}

pub open spec fn s_jp(cpu: Processor, m: MmuView) -> (Processor, MmuView, int) {
    (
        Processor { registers: Registers { pc: spec_read_word(m, cpu.registers.pc),
            ..cpu.registers }, ..cpu },
        m,
        16,
    )
}

pub open spec fn s_jp_cc(cpu: Processor, m: MmuView, c: Condition) -> (Processor, MmuView, int) {
    let taken = spec_condition(cpu.registers, c);
    (
        Processor {
            registers: Registers {
                pc: if taken {
                    spec_read_word(m, cpu.registers.pc)
                } else {
                    ((cpu.registers.pc + 2) % 0x10000) as u16
                },
                ..cpu.registers
            },
            ..cpu
        },
        m,
        if taken {
            16
        } else {
            12
        },
    )
}

pub open spec fn s_jp_hl(cpu: Processor, m: MmuView) -> (Processor, MmuView, int) {
    (
        Processor {
            registers: Registers { pc: cpu.registers.spec_read16(Reg16::HL), ..cpu.registers },
            ..cpu
        },
        m,
        4,
    )
}

pub open spec fn s_jr(cpu: Processor, m: MmuView) -> (Processor, MmuView, int) {
    (
        Processor {
            registers: Registers {
                pc: spec_jr_target(cpu.registers.pc, m.spec_read(cpu.registers.pc)),
                ..cpu.registers
            },
            ..cpu
        },
        m,
        12,
    )
}

pub open spec fn s_jr_cc(cpu: Processor, m: MmuView, c: Condition) -> (Processor, MmuView, int) {
    let taken = spec_condition(cpu.registers, c);
    (
        Processor {
            registers: Registers {
                pc: if taken {
                    spec_jr_target(cpu.registers.pc, m.spec_read(cpu.registers.pc))
                } else {
                    ((cpu.registers.pc + 1) % 0x10000) as u16
                },
                ..cpu.registers
            },
            ..cpu
        },
        m,
        if taken {
            12
        } else {
            8
        },
    )
}

/// A word pushed onto the stack: the two bus writes and the dropped stack
/// pointer.
pub open spec fn s_pushed(cpu: Processor, m: MmuView, v: u16) -> (u16, MmuView) {
    let sp2 = ((cpu.registers.sp + 0xFFFE) % 0x10000) as u16;
    (
        sp2,
        m.spec_write(sp2, (v % 256) as u8).spec_write(
            ((cpu.registers.sp + 0xFFFF) % 0x10000) as u16,
            (v / 256) as u8,
        ),
    )
}

pub open spec fn s_call(cpu: Processor, m: MmuView) -> (Processor, MmuView, int) {
    let ret = ((cpu.registers.pc + 2) % 0x10000) as u16;
    let (sp2, m2) = s_pushed(cpu, m, ret);
    (
        Processor {
            registers: Registers { pc: spec_read_word(m, cpu.registers.pc), sp: sp2,
                ..cpu.registers },
            ..cpu
        },
        m2,
        24,
    )
}

pub open spec fn s_call_cc(cpu: Processor, m: MmuView, c: Condition) -> (Processor, MmuView, int) {
    if spec_condition(cpu.registers, c) {
        let r = s_call(cpu, m);
        (r.0, r.1, 24)
    } else {
        (
            Processor {
                registers: Registers { pc: ((cpu.registers.pc + 2) % 0x10000) as u16,
                    ..cpu.registers },
                ..cpu
            },
            m,
            12,
        )
    }
}

pub open spec fn s_rst(cpu: Processor, m: MmuView, addr: u8) -> (Processor, MmuView, int) {
    let (sp2, m2) = s_pushed(cpu, m, cpu.registers.pc);
    (
        Processor { registers: Registers { pc: addr as u16, sp: sp2, ..cpu.registers }, ..cpu },
        m2,
        16,
    )
}

pub open spec fn s_ret(cpu: Processor, m: MmuView) -> (Processor, MmuView, int) {
    (
        Processor {
            registers: Registers {
                pc: spec_read_word(m, cpu.registers.sp),
                sp: ((cpu.registers.sp + 2) % 0x10000) as u16,
                ..cpu.registers
            },
            ..cpu
        },
        m,
        16,
    )
}

pub open spec fn s_ret_cc(cpu: Processor, m: MmuView, c: Condition) -> (Processor, MmuView, int) {
    if spec_condition(cpu.registers, c) {
        let r = s_ret(cpu, m);
        (r.0, r.1, 20)
    } else {
        (cpu, m, 8)
    }
}

pub open spec fn s_reti(cpu: Processor, m: MmuView) -> (Processor, MmuView, int) {
    let r = s_ret(cpu, m);
    (Processor { ime: true, ..r.0 }, m, 16)
}

pub open spec fn s_ld16_imm(cpu: Processor, m: MmuView, reg: Reg16) -> (Processor, MmuView, int) {
    let v = spec_read_word(m, cpu.registers.pc);
    let stepped = Registers { pc: ((cpu.registers.pc + 2) % 0x10000) as u16, ..cpu.registers };
    (
        Processor {
            registers: match reg {
                Reg16::BC => Registers { b: (v / 256) as u8, c: (v % 256) as u8, ..stepped },
                Reg16::DE => Registers { d: (v / 256) as u8, e: (v % 256) as u8, ..stepped },
                Reg16::HL => Registers { h: (v / 256) as u8, l: (v % 256) as u8, ..stepped },
                _ => Registers { sp: v, ..stepped },
            },
            ..cpu
        },
        m,
        12,
    )
}

pub open spec fn s_ld16_sp_hl(cpu: Processor, m: MmuView) -> (Processor, MmuView, int) {
    (
        Processor {
            registers: Registers { sp: cpu.registers.spec_read16(Reg16::HL), ..cpu.registers },
            ..cpu
        },
        m,
        8,
    )
}

pub open spec fn s_ld16_hl_sp_n(cpu: Processor, m: MmuView) -> (Processor, MmuView, int) {
    let off = spec_sign_extend(m.spec_read(cpu.registers.pc));
    let sum = ((cpu.registers.sp + off) % 0x10000) as u16;
    (
        Processor {
            registers: Registers {
                pc: ((cpu.registers.pc + 1) % 0x10000) as u16,
                h: (sum / 256) as u8,
                l: (sum % 256) as u8,
                zf_bit: false,
                nf_bit: false,
                hf_bit: crate::utils::spec_add_carry_bit(3, cpu.registers.sp as int, off as int),
                cf_bit: crate::utils::spec_add_carry_bit(7, cpu.registers.sp as int, off as int),
                ..cpu.registers
            },
            ..cpu
        },
        m,
        12,
    )
}

pub open spec fn s_ld16_nn_sp(cpu: Processor, m: MmuView) -> (Processor, MmuView, int) {
    let addr = spec_read_word(m, cpu.registers.pc);
    (
        Processor {
            registers: Registers { pc: ((cpu.registers.pc + 2) % 0x10000) as u16,
                ..cpu.registers },
            ..cpu
        },
        m.spec_write(addr, (cpu.registers.sp % 256) as u8).spec_write(
            ((addr + 1) % 0x10000) as u16,
            (cpu.registers.sp / 256) as u8,
        ),
        20,
    )
}

pub open spec fn s_push16(cpu: Processor, m: MmuView, reg: Reg16) -> (Processor, MmuView, int) {
    let (sp2, m2) = s_pushed(cpu, m, cpu.registers.spec_read16(reg));
    (Processor { registers: Registers { sp: sp2, ..cpu.registers }, ..cpu }, m2, 16)
}

pub open spec fn s_pop16(cpu: Processor, m: MmuView, reg: Reg16) -> (Processor, MmuView, int) {
    let v = spec_read_word(m, cpu.registers.sp);
    let stepped = Registers { sp: ((cpu.registers.sp + 2) % 0x10000) as u16, ..cpu.registers };
    (
        Processor {
            registers: match reg {
                Reg16::AF => Registers {
                    a: (v / 256) as u8,
                    zf_bit: v / 128 % 2 == 1,
                    nf_bit: v / 64 % 2 == 1,
                    hf_bit: v / 32 % 2 == 1,
                    cf_bit: v / 16 % 2 == 1,
                    ..stepped
                },
                Reg16::BC => Registers { b: (v / 256) as u8, c: (v % 256) as u8, ..stepped },
                Reg16::DE => Registers { d: (v / 256) as u8, e: (v % 256) as u8, ..stepped },
                _ => Registers { h: (v / 256) as u8, l: (v % 256) as u8, ..stepped },
            },
            ..cpu
        },
        m,
        16,
    )
}

pub open spec fn s_add16(cpu: Processor, m: MmuView, reg: Reg16) -> (Processor, MmuView, int) {
    let hl = cpu.registers.spec_read16(Reg16::HL);
    let v = cpu.registers.spec_read16(reg);
    let sum = ((hl + v) % 0x10000) as u16;
    (
        Processor {
            registers: Registers {
                h: (sum / 256) as u8,
                l: (sum % 256) as u8,
                nf_bit: false,
                hf_bit: crate::utils::spec_add_carry_bit(11, hl as int, v as int),
                cf_bit: hl + v > 0xFFFF,
                ..cpu.registers
            },
            ..cpu
        },
        m,
        8,
    )
}

pub open spec fn s_add16_sp_n(cpu: Processor, m: MmuView) -> (Processor, MmuView, int) {
    let off = spec_sign_extend(m.spec_read(cpu.registers.pc));
    (
        Processor {
            registers: Registers {
                pc: ((cpu.registers.pc + 1) % 0x10000) as u16,
                sp: ((cpu.registers.sp + off) % 0x10000) as u16,
                zf_bit: false,
                nf_bit: false,
                hf_bit: crate::utils::spec_add_carry_bit(3, cpu.registers.sp as int, off as int),
                cf_bit: crate::utils::spec_add_carry_bit(7, cpu.registers.sp as int, off as int),
                ..cpu.registers
            },
            ..cpu
        },
        m,
        16,
    )
}

pub open spec fn s_inc16(cpu: Processor, m: MmuView, reg: Reg16) -> (Processor, MmuView, int) {
    let v = ((cpu.registers.spec_read16(reg) + 1) % 0x10000) as u16;
    (
        Processor {
            registers: match reg {
                Reg16::BC => Registers { b: (v / 256) as u8, c: (v % 256) as u8, ..cpu.registers },
                Reg16::DE => Registers { d: (v / 256) as u8, e: (v % 256) as u8, ..cpu.registers },
                Reg16::HL => Registers { h: (v / 256) as u8, l: (v % 256) as u8, ..cpu.registers },
                _ => Registers { sp: v, ..cpu.registers },
            },
            ..cpu
        },
        m,
        8,
    )
}

pub open spec fn s_dec16(cpu: Processor, m: MmuView, reg: Reg16) -> (Processor, MmuView, int) {
    let v = ((cpu.registers.spec_read16(reg) + 0xFFFF) % 0x10000) as u16;
    (
        Processor {
            registers: match reg {
                Reg16::BC => Registers { b: (v / 256) as u8, c: (v % 256) as u8, ..cpu.registers },
                Reg16::DE => Registers { d: (v / 256) as u8, e: (v % 256) as u8, ..cpu.registers },
                Reg16::HL => Registers { h: (v / 256) as u8, l: (v % 256) as u8, ..cpu.registers },
                _ => Registers { sp: v, ..cpu.registers },
            },
            ..cpu
        },
        m,
        8,
    )
}

/// The CB page's effect: the byte after the prefix selects the operand in
/// its low three bits and the operation in the rest; costs include the
/// prefix fetch.
pub open spec fn s_cb(cpu: Processor, m: MmuView) -> (Processor, MmuView, int) {
    let op = m.spec_read(cpu.registers.pc);
    let cpu1 = Processor {
        registers: Registers { pc: ((cpu.registers.pc + 1) % 0x10000) as u16, ..cpu.registers },
        ..cpu
    };
    let io = spec_cb_operand(op);
    let sel = (op / 8 % 8) as u8;
    if op < 0x40 {
        let r = s_rot(cpu1, m, io, spec_cb_rot_kind(op));
        (r.0, r.1, r.2 + 4)
    } else if op < 0x80 {
        s_bit(cpu1, m, io, sel)
    } else if op < 0xC0 {
        s_res(cpu1, m, io, sel)
    } else {
        s_set(cpu1, m, io, sel)
    }
}

/// The operand the low three bits of a CB-page byte select.
pub open spec fn spec_cb_operand(op: u8) -> Addr8 {
    if op % 8 == 0 {
        Addr8::Reg(Reg8::B)
    } else if op % 8 == 1 {
        Addr8::Reg(Reg8::C)
    } else if op % 8 == 2 {
        Addr8::Reg(Reg8::D)
    } else if op % 8 == 3 {
        Addr8::Reg(Reg8::E)
    } else if op % 8 == 4 {
        Addr8::Reg(Reg8::H)
    } else if op % 8 == 5 {
        Addr8::Reg(Reg8::L)
    } else if op % 8 == 6 {
        Addr8::MemHl
    } else {
        Addr8::Reg(Reg8::A)
    }
}

/// The rotate, shift or swap form a CB-page byte below 0x40 selects.
pub open spec fn spec_cb_rot_kind(op: u8) -> RotKind {
    if op / 8 % 8 == 0 {
        RotKind::Rlc
    } else if op / 8 % 8 == 1 {
        RotKind::Rrc
    } else if op / 8 % 8 == 2 {
        RotKind::Rl
    } else if op / 8 % 8 == 3 {
        RotKind::Rr
    } else if op / 8 % 8 == 4 {
        RotKind::Sla
    } else if op / 8 % 8 == 5 {
        RotKind::Sra
    } else if op / 8 % 8 == 6 {
        RotKind::Swap
    } else {
        RotKind::Srl
    }
}

/// The machine after one opcode of the row 0x00-0x0F: loads, BC arithmetic and the first rotates.
pub open spec fn spec_exec_0(cpu: Processor, m: MmuView, opcode: u8) -> (
    Processor,
    MmuView,
    int,
) {
    match opcode {
        0 => s_nop(cpu, m),
        1 => s_ld16_imm(cpu, m, Reg16::BC),
        2 => s_load(cpu, m, Out8::Mem(Addr::BC), In8::R(Reg8::A)),
        3 => s_inc16(cpu, m, Reg16::BC),
        4 => s_inc8(cpu, m, Addr8::Reg(Reg8::B)),
        5 => s_dec8(cpu, m, Addr8::Reg(Reg8::B)),
        6 => s_load(cpu, m, Out8::R(Reg8::B), In8::Imm),
        7 => s_rot_a(cpu, m, RotKind::Rlc),
        8 => s_ld16_nn_sp(cpu, m),
        9 => s_add16(cpu, m, Reg16::BC),
        10 => s_load(cpu, m, Out8::R(Reg8::A), In8::Mem(Addr::BC)),
        11 => s_dec16(cpu, m, Reg16::BC),
        12 => s_inc8(cpu, m, Addr8::Reg(Reg8::C)),
        13 => s_dec8(cpu, m, Addr8::Reg(Reg8::C)),
        14 => s_load(cpu, m, Out8::R(Reg8::C), In8::Imm),
        15 => s_rot_a(cpu, m, RotKind::Rrc),
        _ => (cpu, m, 4),
    }
}

/// The machine after one opcode of the row 0x10-0x1F: STOP, DE forms, JR and the carry rotates.
pub open spec fn spec_exec_1(cpu: Processor, m: MmuView, opcode: u8) -> (
    Processor,
    MmuView,
    int,
) {
    match opcode {
        16 => s_halt(cpu, m),
        17 => s_ld16_imm(cpu, m, Reg16::DE),
        18 => s_load(cpu, m, Out8::Mem(Addr::DE), In8::R(Reg8::A)),
        19 => s_inc16(cpu, m, Reg16::DE),
        20 => s_inc8(cpu, m, Addr8::Reg(Reg8::D)),
        21 => s_dec8(cpu, m, Addr8::Reg(Reg8::D)),
        22 => s_load(cpu, m, Out8::R(Reg8::D), In8::Imm),
        23 => s_rot_a(cpu, m, RotKind::Rl),
        24 => s_jr(cpu, m),
        25 => s_add16(cpu, m, Reg16::DE),
        26 => s_load(cpu, m, Out8::R(Reg8::A), In8::Mem(Addr::DE)),
        27 => s_dec16(cpu, m, Reg16::DE),
        28 => s_inc8(cpu, m, Addr8::Reg(Reg8::E)),
        29 => s_dec8(cpu, m, Addr8::Reg(Reg8::E)),
        30 => s_load(cpu, m, Out8::R(Reg8::E), In8::Imm),
        31 => s_rot_a(cpu, m, RotKind::Rr),
        _ => (cpu, m, 4),
    }
}

/// The machine after one opcode of the row 0x20-0x2F: JR on zero, HL-increment loads and DAA.
pub open spec fn spec_exec_2(cpu: Processor, m: MmuView, opcode: u8) -> (
    Processor,
    MmuView,
    int,
) {
    match opcode {
        32 => s_jr_cc(cpu, m, Condition::NotZero),
        33 => s_ld16_imm(cpu, m, Reg16::HL),
        34 => s_load(cpu, m, Out8::Mem(Addr::HLI), In8::R(Reg8::A)),
        35 => s_inc16(cpu, m, Reg16::HL),
        36 => s_inc8(cpu, m, Addr8::Reg(Reg8::H)),
        37 => s_dec8(cpu, m, Addr8::Reg(Reg8::H)),
        38 => s_load(cpu, m, Out8::R(Reg8::H), In8::Imm),
        39 => s_daa(cpu, m),
        40 => s_jr_cc(cpu, m, Condition::Zero),
        41 => s_add16(cpu, m, Reg16::HL),
        42 => s_load(cpu, m, Out8::R(Reg8::A), In8::Mem(Addr::HLI)),
        43 => s_dec16(cpu, m, Reg16::HL),
        44 => s_inc8(cpu, m, Addr8::Reg(Reg8::L)),
        45 => s_dec8(cpu, m, Addr8::Reg(Reg8::L)),
        46 => s_load(cpu, m, Out8::R(Reg8::L), In8::Imm),
        47 => s_cpl(cpu, m),
        _ => (cpu, m, 4),
    }
}

/// The machine after one opcode of the row 0x30-0x3F: JR on carry, HL-decrement loads and the flag tweaks.
pub open spec fn spec_exec_3(cpu: Processor, m: MmuView, opcode: u8) -> (
    Processor,
    MmuView,
    int,
) {
    match opcode {
        48 => s_jr_cc(cpu, m, Condition::NotCarry),
        49 => s_ld16_imm(cpu, m, Reg16::SP),
        50 => s_load(cpu, m, Out8::Mem(Addr::HLD), In8::R(Reg8::A)),
        51 => s_inc16(cpu, m, Reg16::SP),
        52 => s_inc8(cpu, m, Addr8::MemHl),
        53 => s_dec8(cpu, m, Addr8::MemHl),
        54 => s_load(cpu, m, Out8::Mem(Addr::HL), In8::Imm),
        55 => s_scf(cpu, m),
        56 => s_jr_cc(cpu, m, Condition::Carry),
        57 => s_add16(cpu, m, Reg16::SP),
        58 => s_load(cpu, m, Out8::R(Reg8::A), In8::Mem(Addr::HLD)),
        59 => s_dec16(cpu, m, Reg16::SP),
        60 => s_inc8(cpu, m, Addr8::Reg(Reg8::A)),
        61 => s_dec8(cpu, m, Addr8::Reg(Reg8::A)),
        62 => s_load(cpu, m, Out8::R(Reg8::A), In8::Imm),
        63 => s_ccf(cpu, m),
        _ => (cpu, m, 4),
    }
}

/// The machine after one opcode of the row 0x40-0x4F: LD into B and C.
pub open spec fn spec_exec_4(cpu: Processor, m: MmuView, opcode: u8) -> (
    Processor,
    MmuView,
    int,
) {
    match opcode {
        64 => s_load(cpu, m, Out8::R(Reg8::B), In8::R(Reg8::B)),
        65 => s_load(cpu, m, Out8::R(Reg8::B), In8::R(Reg8::C)),
        66 => s_load(cpu, m, Out8::R(Reg8::B), In8::R(Reg8::D)),
        67 => s_load(cpu, m, Out8::R(Reg8::B), In8::R(Reg8::E)),
        68 => s_load(cpu, m, Out8::R(Reg8::B), In8::R(Reg8::H)),
        69 => s_load(cpu, m, Out8::R(Reg8::B), In8::R(Reg8::L)),
        70 => s_load(cpu, m, Out8::R(Reg8::B), In8::Mem(Addr::HL)),
        71 => s_load(cpu, m, Out8::R(Reg8::B), In8::R(Reg8::A)),
        72 => s_load(cpu, m, Out8::R(Reg8::C), In8::R(Reg8::B)),
        73 => s_load(cpu, m, Out8::R(Reg8::C), In8::R(Reg8::C)),
        74 => s_load(cpu, m, Out8::R(Reg8::C), In8::R(Reg8::D)),
        75 => s_load(cpu, m, Out8::R(Reg8::C), In8::R(Reg8::E)),
        76 => s_load(cpu, m, Out8::R(Reg8::C), In8::R(Reg8::H)),
        77 => s_load(cpu, m, Out8::R(Reg8::C), In8::R(Reg8::L)),
        78 => s_load(cpu, m, Out8::R(Reg8::C), In8::Mem(Addr::HL)),
        79 => s_load(cpu, m, Out8::R(Reg8::C), In8::R(Reg8::A)),
        _ => (cpu, m, 4),
    }
}

/// The machine after one opcode of the row 0x50-0x5F: LD into D and E.
pub open spec fn spec_exec_5(cpu: Processor, m: MmuView, opcode: u8) -> (
    Processor,
    MmuView,
    int,
) {
    match opcode {
        80 => s_load(cpu, m, Out8::R(Reg8::D), In8::R(Reg8::B)),
        81 => s_load(cpu, m, Out8::R(Reg8::D), In8::R(Reg8::C)),
        82 => s_load(cpu, m, Out8::R(Reg8::D), In8::R(Reg8::D)),
        83 => s_load(cpu, m, Out8::R(Reg8::D), In8::R(Reg8::E)),
        84 => s_load(cpu, m, Out8::R(Reg8::D), In8::R(Reg8::H)),
        85 => s_load(cpu, m, Out8::R(Reg8::D), In8::R(Reg8::L)),
        86 => s_load(cpu, m, Out8::R(Reg8::D), In8::Mem(Addr::HL)),
        87 => s_load(cpu, m, Out8::R(Reg8::D), In8::R(Reg8::A)),
        88 => s_load(cpu, m, Out8::R(Reg8::E), In8::R(Reg8::B)),
        89 => s_load(cpu, m, Out8::R(Reg8::E), In8::R(Reg8::C)),
        90 => s_load(cpu, m, Out8::R(Reg8::E), In8::R(Reg8::D)),
        91 => s_load(cpu, m, Out8::R(Reg8::E), In8::R(Reg8::E)),
        92 => s_load(cpu, m, Out8::R(Reg8::E), In8::R(Reg8::H)),
        93 => s_load(cpu, m, Out8::R(Reg8::E), In8::R(Reg8::L)),
        94 => s_load(cpu, m, Out8::R(Reg8::E), In8::Mem(Addr::HL)),
        95 => s_load(cpu, m, Out8::R(Reg8::E), In8::R(Reg8::A)),
        _ => (cpu, m, 4),
    }
}

/// The machine after one opcode of the row 0x60-0x6F: LD into H and L.
pub open spec fn spec_exec_6(cpu: Processor, m: MmuView, opcode: u8) -> (
    Processor,
    MmuView,
    int,
) {
    match opcode {
        96 => s_load(cpu, m, Out8::R(Reg8::H), In8::R(Reg8::B)),
        97 => s_load(cpu, m, Out8::R(Reg8::H), In8::R(Reg8::C)),
        98 => s_load(cpu, m, Out8::R(Reg8::H), In8::R(Reg8::D)),
        99 => s_load(cpu, m, Out8::R(Reg8::H), In8::R(Reg8::E)),
        100 => s_load(cpu, m, Out8::R(Reg8::H), In8::R(Reg8::H)),
        101 => s_load(cpu, m, Out8::R(Reg8::H), In8::R(Reg8::L)),
        102 => s_load(cpu, m, Out8::R(Reg8::H), In8::Mem(Addr::HL)),
        103 => s_load(cpu, m, Out8::R(Reg8::H), In8::R(Reg8::A)),
        104 => s_load(cpu, m, Out8::R(Reg8::L), In8::R(Reg8::B)),
        105 => s_load(cpu, m, Out8::R(Reg8::L), In8::R(Reg8::C)),
        106 => s_load(cpu, m, Out8::R(Reg8::L), In8::R(Reg8::D)),
        107 => s_load(cpu, m, Out8::R(Reg8::L), In8::R(Reg8::E)),
        108 => s_load(cpu, m, Out8::R(Reg8::L), In8::R(Reg8::H)),
        109 => s_load(cpu, m, Out8::R(Reg8::L), In8::R(Reg8::L)),
        110 => s_load(cpu, m, Out8::R(Reg8::L), In8::Mem(Addr::HL)),
        111 => s_load(cpu, m, Out8::R(Reg8::L), In8::R(Reg8::A)),
        _ => (cpu, m, 4),
    }
}

/// The machine after one opcode of the row 0x70-0x7F: LD into (HL) and A, and HALT.
pub open spec fn spec_exec_7(cpu: Processor, m: MmuView, opcode: u8) -> (
    Processor,
    MmuView,
    int,
) {
    match opcode {
        112 => s_load(cpu, m, Out8::Mem(Addr::HL), In8::R(Reg8::B)),
        113 => s_load(cpu, m, Out8::Mem(Addr::HL), In8::R(Reg8::C)),
        114 => s_load(cpu, m, Out8::Mem(Addr::HL), In8::R(Reg8::D)),
        115 => s_load(cpu, m, Out8::Mem(Addr::HL), In8::R(Reg8::E)),
        116 => s_load(cpu, m, Out8::Mem(Addr::HL), In8::R(Reg8::H)),
        117 => s_load(cpu, m, Out8::Mem(Addr::HL), In8::R(Reg8::L)),
        118 => s_halt(cpu, m),
        119 => s_load(cpu, m, Out8::Mem(Addr::HL), In8::R(Reg8::A)),
        120 => s_load(cpu, m, Out8::R(Reg8::A), In8::R(Reg8::B)),
        121 => s_load(cpu, m, Out8::R(Reg8::A), In8::R(Reg8::C)),
        122 => s_load(cpu, m, Out8::R(Reg8::A), In8::R(Reg8::D)),
        123 => s_load(cpu, m, Out8::R(Reg8::A), In8::R(Reg8::E)),
        124 => s_load(cpu, m, Out8::R(Reg8::A), In8::R(Reg8::H)),
        125 => s_load(cpu, m, Out8::R(Reg8::A), In8::R(Reg8::L)),
        126 => s_load(cpu, m, Out8::R(Reg8::A), In8::Mem(Addr::HL)),
        127 => s_load(cpu, m, Out8::R(Reg8::A), In8::R(Reg8::A)),
        _ => (cpu, m, 4),
    }
}

/// The machine after one opcode of the row 0x80-0x8F: ADD and ADC.
pub open spec fn spec_exec_8(cpu: Processor, m: MmuView, opcode: u8) -> (
    Processor,
    MmuView,
    int,
) {
    match opcode {
        128 => s_add(cpu, m, In8::R(Reg8::B)),
        129 => s_add(cpu, m, In8::R(Reg8::C)),
        130 => s_add(cpu, m, In8::R(Reg8::D)),
        131 => s_add(cpu, m, In8::R(Reg8::E)),
        132 => s_add(cpu, m, In8::R(Reg8::H)),
        133 => s_add(cpu, m, In8::R(Reg8::L)),
        134 => s_add(cpu, m, In8::Mem(Addr::HL)),
        135 => s_add(cpu, m, In8::R(Reg8::A)),
        136 => s_adc(cpu, m, In8::R(Reg8::B)),
        137 => s_adc(cpu, m, In8::R(Reg8::C)),
        138 => s_adc(cpu, m, In8::R(Reg8::D)),
        139 => s_adc(cpu, m, In8::R(Reg8::E)),
        140 => s_adc(cpu, m, In8::R(Reg8::H)),
        141 => s_adc(cpu, m, In8::R(Reg8::L)),
        142 => s_adc(cpu, m, In8::Mem(Addr::HL)),
        143 => s_adc(cpu, m, In8::R(Reg8::A)),
        _ => (cpu, m, 4),
    }
}

/// The machine after one opcode of the row 0x90-0x9F: SUB and SBC.
pub open spec fn spec_exec_9(cpu: Processor, m: MmuView, opcode: u8) -> (
    Processor,
    MmuView,
    int,
) {
    match opcode {
        144 => s_sub(cpu, m, In8::R(Reg8::B)),
        145 => s_sub(cpu, m, In8::R(Reg8::C)),
        146 => s_sub(cpu, m, In8::R(Reg8::D)),
        147 => s_sub(cpu, m, In8::R(Reg8::E)),
        148 => s_sub(cpu, m, In8::R(Reg8::H)),
        149 => s_sub(cpu, m, In8::R(Reg8::L)),
        150 => s_sub(cpu, m, In8::Mem(Addr::HL)),
        151 => s_sub(cpu, m, In8::R(Reg8::A)),
        152 => s_sbc(cpu, m, In8::R(Reg8::B)),
        153 => s_sbc(cpu, m, In8::R(Reg8::C)),
        154 => s_sbc(cpu, m, In8::R(Reg8::D)),
        155 => s_sbc(cpu, m, In8::R(Reg8::E)),
        156 => s_sbc(cpu, m, In8::R(Reg8::H)),
        157 => s_sbc(cpu, m, In8::R(Reg8::L)),
        158 => s_sbc(cpu, m, In8::Mem(Addr::HL)),
        159 => s_sbc(cpu, m, In8::R(Reg8::A)),
        _ => (cpu, m, 4),
    }
}

/// The machine after one opcode of the row 0xA0-0xAF: AND and XOR.
pub open spec fn spec_exec_a(cpu: Processor, m: MmuView, opcode: u8) -> (
    Processor,
    MmuView,
    int,
) {
    match opcode {
        160 => s_and(cpu, m, In8::R(Reg8::B)),
        161 => s_and(cpu, m, In8::R(Reg8::C)),
        162 => s_and(cpu, m, In8::R(Reg8::D)),
        163 => s_and(cpu, m, In8::R(Reg8::E)),
        164 => s_and(cpu, m, In8::R(Reg8::H)),
        165 => s_and(cpu, m, In8::R(Reg8::L)),
        166 => s_and(cpu, m, In8::Mem(Addr::HL)),
        167 => s_and(cpu, m, In8::R(Reg8::A)),
        168 => s_xor(cpu, m, In8::R(Reg8::B)),
        169 => s_xor(cpu, m, In8::R(Reg8::C)),
        170 => s_xor(cpu, m, In8::R(Reg8::D)),
        171 => s_xor(cpu, m, In8::R(Reg8::E)),
        172 => s_xor(cpu, m, In8::R(Reg8::H)),
        173 => s_xor(cpu, m, In8::R(Reg8::L)),
        174 => s_xor(cpu, m, In8::Mem(Addr::HL)),
        175 => s_xor(cpu, m, In8::R(Reg8::A)),
        _ => (cpu, m, 4),
    }
}

/// The machine after one opcode of the row 0xB0-0xBF: OR and CP.
pub open spec fn spec_exec_b(cpu: Processor, m: MmuView, opcode: u8) -> (
    Processor,
    MmuView,
    int,
) {
    match opcode {
        176 => s_or(cpu, m, In8::R(Reg8::B)),
        177 => s_or(cpu, m, In8::R(Reg8::C)),
        178 => s_or(cpu, m, In8::R(Reg8::D)),
        179 => s_or(cpu, m, In8::R(Reg8::E)),
        180 => s_or(cpu, m, In8::R(Reg8::H)),
        181 => s_or(cpu, m, In8::R(Reg8::L)),
        182 => s_or(cpu, m, In8::Mem(Addr::HL)),
        183 => s_or(cpu, m, In8::R(Reg8::A)),
        184 => s_cp(cpu, m, In8::R(Reg8::B)),
        185 => s_cp(cpu, m, In8::R(Reg8::C)),
        186 => s_cp(cpu, m, In8::R(Reg8::D)),
        187 => s_cp(cpu, m, In8::R(Reg8::E)),
        188 => s_cp(cpu, m, In8::R(Reg8::H)),
        189 => s_cp(cpu, m, In8::R(Reg8::L)),
        190 => s_cp(cpu, m, In8::Mem(Addr::HL)),
        191 => s_cp(cpu, m, In8::R(Reg8::A)),
        _ => (cpu, m, 4),
    }
}

/// The machine after one opcode of the row 0xC0-0xCF: zero-flag flow, the BC stack forms and the prefix page.
pub open spec fn spec_exec_c(cpu: Processor, m: MmuView, opcode: u8) -> (
    Processor,
    MmuView,
    int,
) {
    match opcode {
        192 => s_ret_cc(cpu, m, Condition::NotZero),
        193 => s_pop16(cpu, m, Reg16::BC),
        194 => s_jp_cc(cpu, m, Condition::NotZero),
        195 => s_jp(cpu, m),
        196 => s_call_cc(cpu, m, Condition::NotZero),
        197 => s_push16(cpu, m, Reg16::BC),
        198 => s_add(cpu, m, In8::Imm),
        199 => s_rst(cpu, m, 0x00),
        200 => s_ret_cc(cpu, m, Condition::Zero),
        201 => s_ret(cpu, m),
        202 => s_jp_cc(cpu, m, Condition::Zero),
        203 => s_cb(cpu, m),
        204 => s_call_cc(cpu, m, Condition::Zero),
        205 => s_call(cpu, m),
        206 => s_adc(cpu, m, In8::Imm),
        207 => s_rst(cpu, m, 0x08),
        _ => (cpu, m, 4),
    }
}

/// The machine after one opcode of the row 0xD0-0xDF: carry-flag flow,
/// the DE stack forms and RETI, halved to keep the unfolded terms small.
pub open spec fn spec_exec_d_first(cpu: Processor, m: MmuView, opcode: u8) -> (
    Processor,
    MmuView,
    int,
) {
    match opcode {
        208 => s_ret_cc(cpu, m, Condition::NotCarry),
        209 => s_pop16(cpu, m, Reg16::DE),
        210 => s_jp_cc(cpu, m, Condition::NotCarry),
        211 => (cpu, m, 4),
        212 => s_call_cc(cpu, m, Condition::NotCarry),
        213 => s_push16(cpu, m, Reg16::DE),
        214 => s_sub(cpu, m, In8::Imm),
        215 => s_rst(cpu, m, 0x10),
        _ => (cpu, m, 4),
    }
}

pub open spec fn spec_exec_d_second(cpu: Processor, m: MmuView, opcode: u8) -> (
    Processor,
    MmuView,
    int,
) {
    match opcode {
        216 => s_ret_cc(cpu, m, Condition::Carry),
        217 => s_reti(cpu, m),
        218 => s_jp_cc(cpu, m, Condition::Carry),
        219 => (cpu, m, 4),
        220 => s_call_cc(cpu, m, Condition::Carry),
        221 => (cpu, m, 4),
        222 => s_sbc(cpu, m, In8::Imm),
        223 => s_rst(cpu, m, 0x18),
        _ => (cpu, m, 4),
    }
}

pub open spec fn spec_exec_d(cpu: Processor, m: MmuView, opcode: u8) -> (
    Processor,
    MmuView,
    int,
) {
    if opcode < 216 {
        spec_exec_d_first(cpu, m, opcode)
    } else {
        spec_exec_d_second(cpu, m, opcode)
    }
}


/// The machine after one opcode of the row 0xE0-0xEF: high-page stores, the HL stack forms and pointer arithmetic.
pub open spec fn spec_exec_e(cpu: Processor, m: MmuView, opcode: u8) -> (
    Processor,
    MmuView,
    int,
) {
    match opcode {
        224 => s_load(cpu, m, Out8::Mem(Addr::ZeroPage), In8::R(Reg8::A)),
        225 => s_pop16(cpu, m, Reg16::HL),
        226 => s_load(cpu, m, Out8::Mem(Addr::ZeroPageAndC), In8::R(Reg8::A)),
        227 => (cpu, m, 4),
        228 => (cpu, m, 4),
        229 => s_push16(cpu, m, Reg16::HL),
        230 => s_and(cpu, m, In8::Imm),
        231 => s_rst(cpu, m, 0x20),
        232 => s_add16_sp_n(cpu, m),
        233 => s_jp_hl(cpu, m),
        234 => s_load(cpu, m, Out8::Mem(Addr::Immediate16), In8::R(Reg8::A)),
        235 => (cpu, m, 4),
        236 => (cpu, m, 4),
        237 => (cpu, m, 4),
        238 => s_xor(cpu, m, In8::Imm),
        239 => s_rst(cpu, m, 0x28),
        _ => (cpu, m, 4),
    }
}

/// The machine after one opcode of the row 0xF0-0xFF: high-page loads, the AF stack forms and interrupt control.
pub open spec fn spec_exec_f(cpu: Processor, m: MmuView, opcode: u8) -> (
    Processor,
    MmuView,
    int,
) {
    match opcode {
        240 => s_load(cpu, m, Out8::R(Reg8::A), In8::Mem(Addr::ZeroPage)),
        241 => s_pop16(cpu, m, Reg16::AF),
        242 => s_load(cpu, m, Out8::R(Reg8::A), In8::Mem(Addr::ZeroPageAndC)),
        243 => s_di(cpu, m),
        244 => (cpu, m, 4),
        245 => s_push16(cpu, m, Reg16::AF),
        246 => s_or(cpu, m, In8::Imm),
        247 => s_rst(cpu, m, 0x30),
        248 => s_ld16_hl_sp_n(cpu, m),
        249 => s_ld16_sp_hl(cpu, m),
        250 => s_load(cpu, m, Out8::R(Reg8::A), In8::Mem(Addr::Immediate16)),
        251 => s_ei(cpu, m),
        252 => (cpu, m, 4),
        253 => (cpu, m, 4),
        254 => s_cp(cpu, m, In8::Imm),
        255 => s_rst(cpu, m, 0x38),
        _ => (cpu, m, 4),
    }
}

/// The machine after one defined opcode, row by row of the table
/// (undefined opcodes, which the dispatcher's contract excludes, are given
/// the idle transition to keep the table total).
pub open spec fn spec_exec(cpu: Processor, m: MmuView, opcode: u8) -> (Processor, MmuView, int) {
    if opcode < 16 {
        spec_exec_0(cpu, m, opcode)
    } else if opcode < 32 {
        spec_exec_1(cpu, m, opcode)
    } else if opcode < 48 {
        spec_exec_2(cpu, m, opcode)
    } else if opcode < 64 {
        spec_exec_3(cpu, m, opcode)
    } else if opcode < 80 {
        spec_exec_4(cpu, m, opcode)
    } else if opcode < 96 {
        spec_exec_5(cpu, m, opcode)
    } else if opcode < 112 {
        spec_exec_6(cpu, m, opcode)
    } else if opcode < 128 {
        spec_exec_7(cpu, m, opcode)
    } else if opcode < 144 {
        spec_exec_8(cpu, m, opcode)
    } else if opcode < 160 {
        spec_exec_9(cpu, m, opcode)
    } else if opcode < 176 {
        spec_exec_a(cpu, m, opcode)
    } else if opcode < 192 {
        spec_exec_b(cpu, m, opcode)
    } else if opcode < 208 {
        spec_exec_c(cpu, m, opcode)
    } else if opcode < 224 {
        spec_exec_d(cpu, m, opcode)
    } else if opcode < 240 {
        spec_exec_e(cpu, m, opcode)
    } else {
        spec_exec_f(cpu, m, opcode)
    }
}

/// One full processor step from a non-halted state: fetch the opcode at
/// the program counter, execute it, and fold the EI delay (a pending EI
/// from the previous instruction turns the master enable on after this
/// one).
pub open spec fn spec_step(cpu: Processor, m: MmuView) -> (Processor, MmuView, int) {
    let op = m.spec_read(cpu.registers.pc);
    let cpu1 = Processor {
        registers: Registers { pc: ((cpu.registers.pc + 1) % 0x10000) as u16, ..cpu.registers },
        ..cpu
    };
    let (cpu2, m2, cost) = spec_exec(cpu1, m, op);
    let cpu3 = if cpu.ei_pending && cpu2.ei_pending {
        Processor { ime: true, ei_pending: false, ..cpu2 }
    } else {
        cpu2
    };
    (cpu3, m2, cost)
}

impl Processor {
    /// Execute exactly one instruction (or consume one halt step) and
    /// return its cost in T-cycles: a multiple of 4 between 4 and 24. With
    /// the halt flag set, nothing executes and one step of 4 cycles passes.
    /// The EI delay is folded in here: an EI seen on the previous
    /// instruction turns the master enable on after this one.
    #[verifier::rlimit(100)]
    #[verifier::spinoff_prover]
    pub fn cycle(&mut self, mmu: &mut Mmu) -> (cost: TCycles)
        requires
            old(mmu).inv(),
            old(self).halt || spec_defined_opcode(old(mmu)@.spec_read(old(self).registers.pc)),
        ensures
            final(mmu).inv(),
            cost % 4 == 0,
            4 <= cost <= 24,
            old(self).halt ==> cost == 4 && *final(self) == *old(self) && final(mmu)@ == old(mmu)@,
            !old(self).halt ==> (*final(self), final(mmu)@, cost as int) == spec_step(
                *old(self),
                old(mmu)@,
            ),
    {
        if self.halt {
            return 4;
        }
        let pending = self.ei_pending;
        let opcode = self.fetch_byte(mmu);
        let cost = self.execute(opcode, mmu);
        if pending && self.ei_pending {
            self.ime = true;
            self.ei_pending = false;
        }
        cost
    }

    /// Dispatch one fetched opcode to its row of the table.
    #[verifier::rlimit(100)]
    #[verifier::spinoff_prover]
    fn execute(&mut self, opcode: u8, mmu: &mut Mmu) -> (cost: TCycles)
        requires
            old(mmu).inv(),
            spec_defined_opcode(opcode),
        ensures
            final(mmu).inv(),
            cost % 4 == 0,
            4 <= cost <= 24,
            (*final(self), final(mmu)@, cost as int) == spec_exec(*old(self), old(mmu)@, opcode),
    {
        if opcode < 16 {
            self.execute_0(opcode, mmu)
        } else if opcode < 32 {
            self.execute_1(opcode, mmu)
        } else if opcode < 48 {
            self.execute_2(opcode, mmu)
        } else if opcode < 64 {
            self.execute_3(opcode, mmu)
        } else if opcode < 80 {
            self.execute_4(opcode, mmu)
        } else if opcode < 96 {
            self.execute_5(opcode, mmu)
        } else if opcode < 112 {
            self.execute_6(opcode, mmu)
        } else if opcode < 128 {
            self.execute_7(opcode, mmu)
        } else if opcode < 144 {
            self.execute_8(opcode, mmu)
        } else if opcode < 160 {
            self.execute_9(opcode, mmu)
        } else if opcode < 176 {
            self.execute_a(opcode, mmu)
        } else if opcode < 192 {
            self.execute_b(opcode, mmu)
        } else if opcode < 208 {
            self.execute_c(opcode, mmu)
        } else if opcode < 224 {
            self.execute_d(opcode, mmu)
        } else if opcode < 240 {
            self.execute_e(opcode, mmu)
        } else {
            self.execute_f(opcode, mmu)
        }
    }

    /// The opcode row 0x00-0x0F: loads, BC arithmetic and the first rotates.
    #[verifier::rlimit(100)]
    #[verifier::spinoff_prover]
    fn execute_0(&mut self, opcode: u8, mmu: &mut Mmu) -> (cost: TCycles)
        requires
            old(mmu).inv(),
            spec_defined_opcode(opcode),
            0 <= opcode < 16,
        ensures
            final(mmu).inv(),
            cost % 4 == 0,
            4 <= cost <= 24,
            (*final(self), final(mmu)@, cost as int) == spec_exec_0(
                *old(self),
                old(mmu)@,
                opcode,
            ),
    {
        match opcode {
            0 => self.nop(),
            1 => self.load16_imm(mmu, Reg16::BC),
            2 => self.load(mmu, Out8::Mem(Addr::BC), In8::R(Reg8::A)),
            3 => self.inc16(Reg16::BC),
            4 => self.inc(mmu, Addr8::Reg(Reg8::B)),
            5 => self.dec(mmu, Addr8::Reg(Reg8::B)),
            6 => self.load(mmu, Out8::R(Reg8::B), In8::Imm),
            7 => self.rlca(),
            8 => self.load16_nn_sp(mmu),
            9 => self.add16(Reg16::BC),
            10 => self.load(mmu, Out8::R(Reg8::A), In8::Mem(Addr::BC)),
            11 => self.dec16(Reg16::BC),
            12 => self.inc(mmu, Addr8::Reg(Reg8::C)),
            13 => self.dec(mmu, Addr8::Reg(Reg8::C)),
            14 => self.load(mmu, Out8::R(Reg8::C), In8::Imm),
            15 => self.rrca(),
            _ => self.nop(),
        }
    }

    /// The opcode row 0x10-0x1F: STOP, DE forms, JR and the carry rotates.
    #[verifier::rlimit(100)]
    #[verifier::spinoff_prover]
    fn execute_1(&mut self, opcode: u8, mmu: &mut Mmu) -> (cost: TCycles)
        requires
            old(mmu).inv(),
            spec_defined_opcode(opcode),
            16 <= opcode < 32,
        ensures
            final(mmu).inv(),
            cost % 4 == 0,
            4 <= cost <= 24,
            (*final(self), final(mmu)@, cost as int) == spec_exec_1(
                *old(self),
                old(mmu)@,
                opcode,
            ),
    {
        match opcode {
            16 => self.stop(),
            17 => self.load16_imm(mmu, Reg16::DE),
            18 => self.load(mmu, Out8::Mem(Addr::DE), In8::R(Reg8::A)),
            19 => self.inc16(Reg16::DE),
            20 => self.inc(mmu, Addr8::Reg(Reg8::D)),
            21 => self.dec(mmu, Addr8::Reg(Reg8::D)),
            22 => self.load(mmu, Out8::R(Reg8::D), In8::Imm),
            23 => self.rla(),
            24 => self.jr(mmu),
            25 => self.add16(Reg16::DE),
            26 => self.load(mmu, Out8::R(Reg8::A), In8::Mem(Addr::DE)),
            27 => self.dec16(Reg16::DE),
            28 => self.inc(mmu, Addr8::Reg(Reg8::E)),
            29 => self.dec(mmu, Addr8::Reg(Reg8::E)),
            30 => self.load(mmu, Out8::R(Reg8::E), In8::Imm),
            31 => self.rra(),
            _ => self.nop(),
        }
    }

    /// The opcode row 0x20-0x2F: JR on zero, HL-increment loads and DAA.
    #[verifier::rlimit(100)]
    #[verifier::spinoff_prover]
    fn execute_2(&mut self, opcode: u8, mmu: &mut Mmu) -> (cost: TCycles)
        requires
            old(mmu).inv(),
            spec_defined_opcode(opcode),
            32 <= opcode < 48,
        ensures
            final(mmu).inv(),
            cost % 4 == 0,
            4 <= cost <= 24,
            (*final(self), final(mmu)@, cost as int) == spec_exec_2(
                *old(self),
                old(mmu)@,
                opcode,
            ),
    {
        match opcode {
            32 => self.jr_cc(mmu, Condition::NotZero),
            33 => self.load16_imm(mmu, Reg16::HL),
            34 => self.load(mmu, Out8::Mem(Addr::HLI), In8::R(Reg8::A)),
            35 => self.inc16(Reg16::HL),
            36 => self.inc(mmu, Addr8::Reg(Reg8::H)),
            37 => self.dec(mmu, Addr8::Reg(Reg8::H)),
            38 => self.load(mmu, Out8::R(Reg8::H), In8::Imm),
            39 => self.daa(),
            40 => self.jr_cc(mmu, Condition::Zero),
            41 => self.add16(Reg16::HL),
            42 => self.load(mmu, Out8::R(Reg8::A), In8::Mem(Addr::HLI)),
            43 => self.dec16(Reg16::HL),
            44 => self.inc(mmu, Addr8::Reg(Reg8::L)),
            45 => self.dec(mmu, Addr8::Reg(Reg8::L)),
            46 => self.load(mmu, Out8::R(Reg8::L), In8::Imm),
            47 => self.cpl(),
            _ => self.nop(),
        }
    }

    /// The opcode row 0x30-0x3F: JR on carry, HL-decrement loads and the flag tweaks.
    #[verifier::rlimit(100)]
    #[verifier::spinoff_prover]
    fn execute_3(&mut self, opcode: u8, mmu: &mut Mmu) -> (cost: TCycles)
        requires
            old(mmu).inv(),
            spec_defined_opcode(opcode),
            48 <= opcode < 64,
        ensures
            final(mmu).inv(),
            cost % 4 == 0,
            4 <= cost <= 24,
            (*final(self), final(mmu)@, cost as int) == spec_exec_3(
                *old(self),
                old(mmu)@,
                opcode,
            ),
    {
        match opcode {
            48 => self.jr_cc(mmu, Condition::NotCarry),
            49 => self.load16_imm(mmu, Reg16::SP),
            50 => self.load(mmu, Out8::Mem(Addr::HLD), In8::R(Reg8::A)),
            51 => self.inc16(Reg16::SP),
            52 => self.inc(mmu, Addr8::MemHl),
            53 => self.dec(mmu, Addr8::MemHl),
            54 => self.load(mmu, Out8::Mem(Addr::HL), In8::Imm),
            55 => self.scf(),
            56 => self.jr_cc(mmu, Condition::Carry),
            57 => self.add16(Reg16::SP),
            58 => self.load(mmu, Out8::R(Reg8::A), In8::Mem(Addr::HLD)),
            59 => self.dec16(Reg16::SP),
            60 => self.inc(mmu, Addr8::Reg(Reg8::A)),
            61 => self.dec(mmu, Addr8::Reg(Reg8::A)),
            62 => self.load(mmu, Out8::R(Reg8::A), In8::Imm),
            63 => self.ccf(),
            _ => self.nop(),
        }
    }

    /// The opcode row 0x40-0x4F: LD into B and C.
    #[verifier::rlimit(100)]
    #[verifier::spinoff_prover]
    fn execute_4(&mut self, opcode: u8, mmu: &mut Mmu) -> (cost: TCycles)
        requires
            old(mmu).inv(),
            spec_defined_opcode(opcode),
            64 <= opcode < 80,
        ensures
            final(mmu).inv(),
            cost % 4 == 0,
            4 <= cost <= 24,
            (*final(self), final(mmu)@, cost as int) == spec_exec_4(
                *old(self),
                old(mmu)@,
                opcode,
            ),
    {
        match opcode {
            64 => self.load(mmu, Out8::R(Reg8::B), In8::R(Reg8::B)),
            65 => self.load(mmu, Out8::R(Reg8::B), In8::R(Reg8::C)),
            66 => self.load(mmu, Out8::R(Reg8::B), In8::R(Reg8::D)),
            67 => self.load(mmu, Out8::R(Reg8::B), In8::R(Reg8::E)),
            68 => self.load(mmu, Out8::R(Reg8::B), In8::R(Reg8::H)),
            69 => self.load(mmu, Out8::R(Reg8::B), In8::R(Reg8::L)),
            70 => self.load(mmu, Out8::R(Reg8::B), In8::Mem(Addr::HL)),
            71 => self.load(mmu, Out8::R(Reg8::B), In8::R(Reg8::A)),
            72 => self.load(mmu, Out8::R(Reg8::C), In8::R(Reg8::B)),
            73 => self.load(mmu, Out8::R(Reg8::C), In8::R(Reg8::C)),
            74 => self.load(mmu, Out8::R(Reg8::C), In8::R(Reg8::D)),
            75 => self.load(mmu, Out8::R(Reg8::C), In8::R(Reg8::E)),
            76 => self.load(mmu, Out8::R(Reg8::C), In8::R(Reg8::H)),
            77 => self.load(mmu, Out8::R(Reg8::C), In8::R(Reg8::L)),
            78 => self.load(mmu, Out8::R(Reg8::C), In8::Mem(Addr::HL)),
            79 => self.load(mmu, Out8::R(Reg8::C), In8::R(Reg8::A)),
            _ => self.nop(),
        }
    }

    /// The opcode row 0x50-0x5F: LD into D and E.
    #[verifier::rlimit(100)]
    #[verifier::spinoff_prover]
    fn execute_5(&mut self, opcode: u8, mmu: &mut Mmu) -> (cost: TCycles)
        requires
            old(mmu).inv(),
            spec_defined_opcode(opcode),
            80 <= opcode < 96,
        ensures
            final(mmu).inv(),
            cost % 4 == 0,
            4 <= cost <= 24,
            (*final(self), final(mmu)@, cost as int) == spec_exec_5(
                *old(self),
                old(mmu)@,
                opcode,
            ),
    {
        match opcode {
            80 => self.load(mmu, Out8::R(Reg8::D), In8::R(Reg8::B)),
            81 => self.load(mmu, Out8::R(Reg8::D), In8::R(Reg8::C)),
            82 => self.load(mmu, Out8::R(Reg8::D), In8::R(Reg8::D)),
            83 => self.load(mmu, Out8::R(Reg8::D), In8::R(Reg8::E)),
            84 => self.load(mmu, Out8::R(Reg8::D), In8::R(Reg8::H)),
            85 => self.load(mmu, Out8::R(Reg8::D), In8::R(Reg8::L)),
            86 => self.load(mmu, Out8::R(Reg8::D), In8::Mem(Addr::HL)),
            87 => self.load(mmu, Out8::R(Reg8::D), In8::R(Reg8::A)),
            88 => self.load(mmu, Out8::R(Reg8::E), In8::R(Reg8::B)),
            89 => self.load(mmu, Out8::R(Reg8::E), In8::R(Reg8::C)),
            90 => self.load(mmu, Out8::R(Reg8::E), In8::R(Reg8::D)),
            91 => self.load(mmu, Out8::R(Reg8::E), In8::R(Reg8::E)),
            92 => self.load(mmu, Out8::R(Reg8::E), In8::R(Reg8::H)),
            93 => self.load(mmu, Out8::R(Reg8::E), In8::R(Reg8::L)),
            94 => self.load(mmu, Out8::R(Reg8::E), In8::Mem(Addr::HL)),
            95 => self.load(mmu, Out8::R(Reg8::E), In8::R(Reg8::A)),
            _ => self.nop(),
        }
    }

    /// The opcode row 0x60-0x6F: LD into H and L.
    #[verifier::rlimit(100)]
    #[verifier::spinoff_prover]
    fn execute_6(&mut self, opcode: u8, mmu: &mut Mmu) -> (cost: TCycles)
        requires
            old(mmu).inv(),
            spec_defined_opcode(opcode),
            96 <= opcode < 112,
        ensures
            final(mmu).inv(),
            cost % 4 == 0,
            4 <= cost <= 24,
            (*final(self), final(mmu)@, cost as int) == spec_exec_6(
                *old(self),
                old(mmu)@,
                opcode,
            ),
    {
        match opcode {
            96 => self.load(mmu, Out8::R(Reg8::H), In8::R(Reg8::B)),
            97 => self.load(mmu, Out8::R(Reg8::H), In8::R(Reg8::C)),
            98 => self.load(mmu, Out8::R(Reg8::H), In8::R(Reg8::D)),
            99 => self.load(mmu, Out8::R(Reg8::H), In8::R(Reg8::E)),
            100 => self.load(mmu, Out8::R(Reg8::H), In8::R(Reg8::H)),
            101 => self.load(mmu, Out8::R(Reg8::H), In8::R(Reg8::L)),
            102 => self.load(mmu, Out8::R(Reg8::H), In8::Mem(Addr::HL)),
            103 => self.load(mmu, Out8::R(Reg8::H), In8::R(Reg8::A)),
            104 => self.load(mmu, Out8::R(Reg8::L), In8::R(Reg8::B)),
            105 => self.load(mmu, Out8::R(Reg8::L), In8::R(Reg8::C)),
            106 => self.load(mmu, Out8::R(Reg8::L), In8::R(Reg8::D)),
            107 => self.load(mmu, Out8::R(Reg8::L), In8::R(Reg8::E)),
            108 => self.load(mmu, Out8::R(Reg8::L), In8::R(Reg8::H)),
            109 => self.load(mmu, Out8::R(Reg8::L), In8::R(Reg8::L)),
            110 => self.load(mmu, Out8::R(Reg8::L), In8::Mem(Addr::HL)),
            111 => self.load(mmu, Out8::R(Reg8::L), In8::R(Reg8::A)),
            _ => self.nop(),
        }
    }

    /// The opcode row 0x70-0x7F: LD into (HL) and A, and HALT.
    #[verifier::rlimit(100)]
    #[verifier::spinoff_prover]
    fn execute_7(&mut self, opcode: u8, mmu: &mut Mmu) -> (cost: TCycles)
        requires
            old(mmu).inv(),
            spec_defined_opcode(opcode),
            112 <= opcode < 128,
        ensures
            final(mmu).inv(),
            cost % 4 == 0,
            4 <= cost <= 24,
            (*final(self), final(mmu)@, cost as int) == spec_exec_7(
                *old(self),
                old(mmu)@,
                opcode,
            ),
    {
        match opcode {
            112 => self.load(mmu, Out8::Mem(Addr::HL), In8::R(Reg8::B)),
            113 => self.load(mmu, Out8::Mem(Addr::HL), In8::R(Reg8::C)),
            114 => self.load(mmu, Out8::Mem(Addr::HL), In8::R(Reg8::D)),
            115 => self.load(mmu, Out8::Mem(Addr::HL), In8::R(Reg8::E)),
            116 => self.load(mmu, Out8::Mem(Addr::HL), In8::R(Reg8::H)),
            117 => self.load(mmu, Out8::Mem(Addr::HL), In8::R(Reg8::L)),
            118 => self.halt(),
            119 => self.load(mmu, Out8::Mem(Addr::HL), In8::R(Reg8::A)),
            120 => self.load(mmu, Out8::R(Reg8::A), In8::R(Reg8::B)),
            121 => self.load(mmu, Out8::R(Reg8::A), In8::R(Reg8::C)),
            122 => self.load(mmu, Out8::R(Reg8::A), In8::R(Reg8::D)),
            123 => self.load(mmu, Out8::R(Reg8::A), In8::R(Reg8::E)),
            124 => self.load(mmu, Out8::R(Reg8::A), In8::R(Reg8::H)),
            125 => self.load(mmu, Out8::R(Reg8::A), In8::R(Reg8::L)),
            126 => self.load(mmu, Out8::R(Reg8::A), In8::Mem(Addr::HL)),
            127 => self.load(mmu, Out8::R(Reg8::A), In8::R(Reg8::A)),
            _ => self.nop(),
        }
    }

    /// The opcode row 0x80-0x8F: ADD and ADC.
    #[verifier::rlimit(100)]
    #[verifier::spinoff_prover]
    fn execute_8(&mut self, opcode: u8, mmu: &mut Mmu) -> (cost: TCycles)
        requires
            old(mmu).inv(),
            spec_defined_opcode(opcode),
            128 <= opcode < 144,
        ensures
            final(mmu).inv(),
            cost % 4 == 0,
            4 <= cost <= 24,
            (*final(self), final(mmu)@, cost as int) == spec_exec_8(
                *old(self),
                old(mmu)@,
                opcode,
            ),
    {
        match opcode {
            128 => self.add(mmu, In8::R(Reg8::B)),
            129 => self.add(mmu, In8::R(Reg8::C)),
            130 => self.add(mmu, In8::R(Reg8::D)),
            131 => self.add(mmu, In8::R(Reg8::E)),
            132 => self.add(mmu, In8::R(Reg8::H)),
            133 => self.add(mmu, In8::R(Reg8::L)),
            134 => self.add(mmu, In8::Mem(Addr::HL)),
            135 => self.add(mmu, In8::R(Reg8::A)),
            136 => self.adc(mmu, In8::R(Reg8::B)),
            137 => self.adc(mmu, In8::R(Reg8::C)),
            138 => self.adc(mmu, In8::R(Reg8::D)),
            139 => self.adc(mmu, In8::R(Reg8::E)),
            140 => self.adc(mmu, In8::R(Reg8::H)),
            141 => self.adc(mmu, In8::R(Reg8::L)),
            142 => self.adc(mmu, In8::Mem(Addr::HL)),
            143 => self.adc(mmu, In8::R(Reg8::A)),
            _ => self.nop(),
        }
    }

    /// The opcode row 0x90-0x9F: SUB and SBC.
    #[verifier::rlimit(100)]
    #[verifier::spinoff_prover]
    fn execute_9(&mut self, opcode: u8, mmu: &mut Mmu) -> (cost: TCycles)
        requires
            old(mmu).inv(),
            spec_defined_opcode(opcode),
            144 <= opcode < 160,
        ensures
            final(mmu).inv(),
            cost % 4 == 0,
            4 <= cost <= 24,
            (*final(self), final(mmu)@, cost as int) == spec_exec_9(
                *old(self),
                old(mmu)@,
                opcode,
            ),
    {
        match opcode {
            144 => self.sub(mmu, In8::R(Reg8::B)),
            145 => self.sub(mmu, In8::R(Reg8::C)),
            146 => self.sub(mmu, In8::R(Reg8::D)),
            147 => self.sub(mmu, In8::R(Reg8::E)),
            148 => self.sub(mmu, In8::R(Reg8::H)),
            149 => self.sub(mmu, In8::R(Reg8::L)),
            150 => self.sub(mmu, In8::Mem(Addr::HL)),
            151 => self.sub(mmu, In8::R(Reg8::A)),
            152 => self.sbc(mmu, In8::R(Reg8::B)),
            153 => self.sbc(mmu, In8::R(Reg8::C)),
            154 => self.sbc(mmu, In8::R(Reg8::D)),
            155 => self.sbc(mmu, In8::R(Reg8::E)),
            156 => self.sbc(mmu, In8::R(Reg8::H)),
            157 => self.sbc(mmu, In8::R(Reg8::L)),
            158 => self.sbc(mmu, In8::Mem(Addr::HL)),
            159 => self.sbc(mmu, In8::R(Reg8::A)),
            _ => self.nop(),
        }
    }

    /// The opcode row 0xA0-0xAF: AND and XOR.
    #[verifier::rlimit(100)]
    #[verifier::spinoff_prover]
    fn execute_a(&mut self, opcode: u8, mmu: &mut Mmu) -> (cost: TCycles)
        requires
            old(mmu).inv(),
            spec_defined_opcode(opcode),
            160 <= opcode < 176,
        ensures
            final(mmu).inv(),
            cost % 4 == 0,
            4 <= cost <= 24,
            (*final(self), final(mmu)@, cost as int) == spec_exec_a(
                *old(self),
                old(mmu)@,
                opcode,
            ),
    {
        match opcode {
            160 => self.and(mmu, In8::R(Reg8::B)),
            161 => self.and(mmu, In8::R(Reg8::C)),
            162 => self.and(mmu, In8::R(Reg8::D)),
            163 => self.and(mmu, In8::R(Reg8::E)),
            164 => self.and(mmu, In8::R(Reg8::H)),
            165 => self.and(mmu, In8::R(Reg8::L)),
            166 => self.and(mmu, In8::Mem(Addr::HL)),
            167 => self.and(mmu, In8::R(Reg8::A)),
            168 => self.xor(mmu, In8::R(Reg8::B)),
            169 => self.xor(mmu, In8::R(Reg8::C)),
            170 => self.xor(mmu, In8::R(Reg8::D)),
            171 => self.xor(mmu, In8::R(Reg8::E)),
            172 => self.xor(mmu, In8::R(Reg8::H)),
            173 => self.xor(mmu, In8::R(Reg8::L)),
            174 => self.xor(mmu, In8::Mem(Addr::HL)),
            175 => self.xor(mmu, In8::R(Reg8::A)),
            _ => self.nop(),
        }
    }

    /// The opcode row 0xB0-0xBF: OR and CP.
    #[verifier::rlimit(100)]
    #[verifier::spinoff_prover]
    fn execute_b(&mut self, opcode: u8, mmu: &mut Mmu) -> (cost: TCycles)
        requires
            old(mmu).inv(),
            spec_defined_opcode(opcode),
            176 <= opcode < 192,
        ensures
            final(mmu).inv(),
            cost % 4 == 0,
            4 <= cost <= 24,
            (*final(self), final(mmu)@, cost as int) == spec_exec_b(
                *old(self),
                old(mmu)@,
                opcode,
            ),
    {
        match opcode {
            176 => self.or(mmu, In8::R(Reg8::B)),
            177 => self.or(mmu, In8::R(Reg8::C)),
            178 => self.or(mmu, In8::R(Reg8::D)),
            179 => self.or(mmu, In8::R(Reg8::E)),
            180 => self.or(mmu, In8::R(Reg8::H)),
            181 => self.or(mmu, In8::R(Reg8::L)),
            182 => self.or(mmu, In8::Mem(Addr::HL)),
            183 => self.or(mmu, In8::R(Reg8::A)),
            184 => self.cp(mmu, In8::R(Reg8::B)),
            185 => self.cp(mmu, In8::R(Reg8::C)),
            186 => self.cp(mmu, In8::R(Reg8::D)),
            187 => self.cp(mmu, In8::R(Reg8::E)),
            188 => self.cp(mmu, In8::R(Reg8::H)),
            189 => self.cp(mmu, In8::R(Reg8::L)),
            190 => self.cp(mmu, In8::Mem(Addr::HL)),
            191 => self.cp(mmu, In8::R(Reg8::A)),
            _ => self.nop(),
        }
    }

    /// The opcode row 0xC0-0xCF: zero-flag flow, the BC stack forms and the prefix page.
    #[verifier::rlimit(100)]
    #[verifier::spinoff_prover]
    fn execute_c(&mut self, opcode: u8, mmu: &mut Mmu) -> (cost: TCycles)
        requires
            old(mmu).inv(),
            spec_defined_opcode(opcode),
            192 <= opcode < 208,
        ensures
            final(mmu).inv(),
            cost % 4 == 0,
            4 <= cost <= 24,
            (*final(self), final(mmu)@, cost as int) == spec_exec_c(
                *old(self),
                old(mmu)@,
                opcode,
            ),
    {
        match opcode {
            192 => self.ret_cc(mmu, Condition::NotZero),
            193 => self.pop16(mmu, Reg16::BC),
            194 => self.jp_cc(mmu, Condition::NotZero),
            195 => self.jp(mmu),
            196 => self.call_cc(mmu, Condition::NotZero),
            197 => self.push16(mmu, Reg16::BC),
            198 => self.add(mmu, In8::Imm),
            199 => self.rst(mmu, 0x00),
            200 => self.ret_cc(mmu, Condition::Zero),
            201 => self.ret(mmu),
            202 => self.jp_cc(mmu, Condition::Zero),
            203 => self.cb_opcodes(mmu),
            204 => self.call_cc(mmu, Condition::Zero),
            205 => self.call(mmu),
            206 => self.adc(mmu, In8::Imm),
            207 => self.rst(mmu, 0x08),
            _ => self.nop(),
        }
    }

    /// The opcode row 0xD0-0xDF: carry-flag flow, the DE stack forms and
    /// RETI; split in half to keep each proof light.
    fn execute_d(&mut self, opcode: u8, mmu: &mut Mmu) -> (cost: TCycles)
        requires
            old(mmu).inv(),
            spec_defined_opcode(opcode),
            208 <= opcode < 224,
        ensures
            final(mmu).inv(),
            cost % 4 == 0,
            4 <= cost <= 24,
            (*final(self), final(mmu)@, cost as int) == spec_exec_d(
                *old(self),
                old(mmu)@,
                opcode,
            ),
    {
        if opcode < 216 {
            self.execute_d_low(opcode, mmu)
        } else {
            self.execute_d_high(opcode, mmu)
        }
    }

    /// Opcodes 0xD0-0xD7: RET NC, POP DE, JP NC, CALL NC, PUSH DE, SUB n and RST 10.
    #[verifier::rlimit(100)]
    #[verifier::spinoff_prover]
    fn execute_d_low(&mut self, opcode: u8, mmu: &mut Mmu) -> (cost: TCycles)
        requires
            old(mmu).inv(),
            spec_defined_opcode(opcode),
            208 <= opcode < 216,
        ensures
            final(mmu).inv(),
            cost % 4 == 0,
            4 <= cost <= 24,
            (*final(self), final(mmu)@, cost as int) == spec_exec_d_first(
                *old(self),
                old(mmu)@,
                opcode,
            ),
    {
        if opcode < 212 {
            match opcode {
                208 => self.ret_cc(mmu, Condition::NotCarry),
                209 => self.pop16(mmu, Reg16::DE),
                210 => self.jp_cc(mmu, Condition::NotCarry),
                _ => self.undefined(opcode),
            }
        } else {
            match opcode {
                212 => self.call_cc(mmu, Condition::NotCarry),
                213 => self.push16(mmu, Reg16::DE),
                214 => self.sub(mmu, In8::Imm),
                _ => self.rst(mmu, 0x10),
            }
        }
    }

    /// Opcodes 0xD8-0xDF: RET C, RETI, JP C, CALL C, SBC n and RST 18.
    #[verifier::rlimit(100)]
    #[verifier::spinoff_prover]
    fn execute_d_high(&mut self, opcode: u8, mmu: &mut Mmu) -> (cost: TCycles)
        requires
            old(mmu).inv(),
            spec_defined_opcode(opcode),
            216 <= opcode < 224,
        ensures
            final(mmu).inv(),
            cost % 4 == 0,
            4 <= cost <= 24,
            (*final(self), final(mmu)@, cost as int) == spec_exec_d_second(
                *old(self),
                old(mmu)@,
                opcode,
            ),
    {
        match opcode {
            216 => self.ret_cc(mmu, Condition::Carry),
            217 => self.reti(mmu),
            218 => self.jp_cc(mmu, Condition::Carry),
            219 => self.undefined(opcode),
            220 => self.call_cc(mmu, Condition::Carry),
            221 => self.undefined(opcode),
            222 => self.sbc(mmu, In8::Imm),
            223 => self.rst(mmu, 0x18),
            _ => self.nop(),
        }
    }

    /// The opcode row 0xE0-0xEF: high-page stores, the HL stack forms and pointer arithmetic.
    #[verifier::rlimit(100)]
    #[verifier::spinoff_prover]
    fn execute_e(&mut self, opcode: u8, mmu: &mut Mmu) -> (cost: TCycles)
        requires
            old(mmu).inv(),
            spec_defined_opcode(opcode),
            224 <= opcode < 240,
        ensures
            final(mmu).inv(),
            cost % 4 == 0,
            4 <= cost <= 24,
            (*final(self), final(mmu)@, cost as int) == spec_exec_e(
                *old(self),
                old(mmu)@,
                opcode,
            ),
    {
        match opcode {
            224 => self.load(mmu, Out8::Mem(Addr::ZeroPage), In8::R(Reg8::A)),
            225 => self.pop16(mmu, Reg16::HL),
            226 => self.load(mmu, Out8::Mem(Addr::ZeroPageAndC), In8::R(Reg8::A)),
            227 => self.undefined(opcode),
            228 => self.undefined(opcode),
            229 => self.push16(mmu, Reg16::HL),
            230 => self.and(mmu, In8::Imm),
            231 => self.rst(mmu, 0x20),
            232 => self.add16_sp_n(mmu),
            233 => self.jp_hl(),
            234 => self.load(mmu, Out8::Mem(Addr::Immediate16), In8::R(Reg8::A)),
            235 => self.undefined(opcode),
            236 => self.undefined(opcode),
            237 => self.undefined(opcode),
            238 => self.xor(mmu, In8::Imm),
            239 => self.rst(mmu, 0x28),
            _ => self.nop(),
        }
    }

    /// The opcode row 0xF0-0xFF: high-page loads, the AF stack forms and interrupt control.
    #[verifier::rlimit(100)]
    #[verifier::spinoff_prover]
    fn execute_f(&mut self, opcode: u8, mmu: &mut Mmu) -> (cost: TCycles)
        requires
            old(mmu).inv(),
            spec_defined_opcode(opcode),
            240 <= opcode < 256,
        ensures
            final(mmu).inv(),
            cost % 4 == 0,
            4 <= cost <= 24,
            (*final(self), final(mmu)@, cost as int) == spec_exec_f(
                *old(self),
                old(mmu)@,
                opcode,
            ),
    {
        match opcode {
            240 => self.load(mmu, Out8::R(Reg8::A), In8::Mem(Addr::ZeroPage)),
            241 => self.pop16(mmu, Reg16::AF),
            242 => self.load(mmu, Out8::R(Reg8::A), In8::Mem(Addr::ZeroPageAndC)),
            243 => self.di(),
            244 => self.undefined(opcode),
            245 => self.push16(mmu, Reg16::AF),
            246 => self.or(mmu, In8::Imm),
            247 => self.rst(mmu, 0x30),
            248 => self.load16_hl_sp_n(mmu),
            249 => self.load16_sp_hl(),
            250 => self.load(mmu, Out8::R(Reg8::A), In8::Mem(Addr::Immediate16)),
            251 => self.ei(),
            252 => self.undefined(opcode),
            253 => self.undefined(opcode),
            254 => self.cp(mmu, In8::Imm),
            255 => self.rst(mmu, 0x38),
            _ => self.nop(),
        }
    }

    /// The CB-prefixed page: rotates, shifts, swap, and the bit test, set
    /// and clear families, selected by the byte after the prefix.
    #[verifier::rlimit(100)]
    #[verifier::spinoff_prover]
    pub fn cb_opcodes(&mut self, mmu: &mut Mmu) -> (cost: TCycles)
        requires
            old(mmu).inv(),
        ensures
            final(mmu).inv(),
            cost % 4 == 0,
            8 <= cost <= 16,
            (*final(self), final(mmu)@, cost as int) == s_cb(*old(self), old(mmu)@),
    {
        let op = self.fetch_byte(mmu);
        let io = match op % 8 {
            0 => Addr8::Reg(Reg8::B),
            1 => Addr8::Reg(Reg8::C),
            2 => Addr8::Reg(Reg8::D),
            3 => Addr8::Reg(Reg8::E),
            4 => Addr8::Reg(Reg8::H),
            5 => Addr8::Reg(Reg8::L),
            6 => Addr8::MemHl,
            _ => Addr8::Reg(Reg8::A),
        };
        let sel = op / 8 % 8;
        if op < 0x40 {
            let kind = match sel {
                0 => RotKind::Rlc,
                1 => RotKind::Rrc,
                2 => RotKind::Rl,
                3 => RotKind::Rr,
                4 => RotKind::Sla,
                5 => RotKind::Sra,
                6 => RotKind::Swap,
                _ => RotKind::Srl,
            };
            self.rot(mmu, io, kind) + 4
        } else if op < 0x80 {
            self.bit(mmu, io, sel)
        } else if op < 0xC0 {
            self.res(mmu, io, sel)
        } else {
            self.set(mmu, io, sel)
        }
    }
}

} // verus!
