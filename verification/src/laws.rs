//! The library's stated laws: facts that tie several operations together,
//! proved once over the spec functions the operations' contracts use.

use vstd::prelude::*;

use crate::processor::registers::{Reg16, Registers};
use crate::processor::{spec_alu_add, spec_alu_sub};
use crate::processor::execute::spec_daa;

verus! {

/// Popping the AF pair restores A and the upper nibble of F exactly as the
/// push packed them, and the packed flags byte always has a zero low
/// nibble: the pushed word decodes back to the same A and the same four
/// flags.
pub proof fn lemma_push_pop_af_restores(regs: Registers)
    ensures
        ({
            let v = regs.spec_read16(Reg16::AF);
            &&& (v / 256) as u8 == regs.a
            &&& (v / 128 % 2 == 1) == regs.zf_bit
            &&& (v / 64 % 2 == 1) == regs.nf_bit
            &&& (v / 32 % 2 == 1) == regs.hf_bit
            &&& (v / 16 % 2 == 1) == regs.cf_bit
            &&& v % 16 == 0
        }),
{
    let f = regs.spec_f() as int;
    let v = regs.a * 256 + f;
    assert(0 <= f < 256 && f % 16 == 0);
    assert(v / 256 == regs.a && v % 256 == f && v % 16 == f % 16) by (nonlinear_arith)
        requires
            0 <= f < 256,
            0 <= regs.a < 256,
            v == regs.a * 256 + f,
    ;
    assert(v / 128 % 2 == f / 128 % 2 && v / 64 % 2 == f / 64 % 2 && v / 32 % 2 == f / 32 % 2 && v
        / 16 % 2 == f / 16 % 2) by (nonlinear_arith)
        requires
            0 <= f < 256,
            0 <= regs.a < 256,
            v == regs.a * 256 + f,
    ;
}

/// The ADC characterization: for every accumulator, operand and carry-in,
/// the result is the sum modulo 256, Z holds exactly of a zero result, H
/// exactly of a low-nibble carry, C exactly of a full carry, and N is
/// clear.
pub proof fn lemma_adc_characterisation(regs: Registers, b: u8, c_in: bool)
    ensures
        ({
            let c: int = if c_in { 1 } else { 0 };
            let post = spec_alu_add(regs, b, c_in);
            &&& post.a == (regs.a + b + c) % 256
            &&& post.zf_bit == (post.a == 0)
            &&& post.hf_bit == (regs.a % 16 + b % 16 + c > 0xF)
            &&& post.cf_bit == (regs.a + b + c > 0xFF)
            &&& !post.nf_bit
        }),
{
}

/// The SBC characterization, symmetric to ADC: the result is the
/// difference modulo 256, Z of a zero result, H of a low-nibble borrow, C
/// of a full borrow, and N is set.
pub proof fn lemma_sbc_characterisation(regs: Registers, b: u8, c_in: bool)
    ensures
        ({
            let c: int = if c_in { 1 } else { 0 };
            let post = spec_alu_sub(regs, b, c_in);
            &&& post.a == (regs.a + 512 - b - c) % 256
            &&& post.zf_bit == (post.a == 0)
            &&& post.hf_bit == (regs.a % 16 < b % 16 + c)
            &&& post.cf_bit == (regs.a < b + c)
            &&& post.nf_bit
        }),
{
}

/// The BCD adjustment is idempotent on values 0-99 already encoded as
/// packed BCD with N, H and C clear: the first pass changes nothing, so
/// neither does a second.
pub proof fn lemma_daa_idempotent(regs: Registers)
    requires
        regs.a % 16 <= 9,
        regs.a / 16 <= 9,
        !regs.nf_bit,
        !regs.hf_bit,
        !regs.cf_bit,
    ensures
        spec_daa(regs).a == regs.a,
        spec_daa(spec_daa(regs)) == spec_daa(regs),
{
    assert(regs.a <= 0x99) by (nonlinear_arith)
        requires
            regs.a % 16 <= 9,
            regs.a / 16 <= 9,
    ;
    assert(spec_daa(regs).a == regs.a);
}

} // verus!
