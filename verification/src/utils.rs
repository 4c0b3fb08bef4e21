//! Byte and word helpers shared by the bus and the processor.

use vstd::prelude::*;

verus! {

/// Low byte of a 16-bit word.
pub fn get_u16_low(val: u16) -> (r: u8)
    ensures
        r == val % 256,
{
    (val % 256) as u8
}

/// High byte of a 16-bit word.
pub fn get_u16_high(val: u16) -> (r: u8)
    ensures
        r == val / 256,
{
    (val / 256) as u8
}

/// Little-endian word built from a high byte and a low byte.
pub fn build_u16(high: u8, low: u8) -> (r: u16)
    ensures
        r == high * 256 + low,
        r % 256 == low,
        r / 256 == high,
{
    let r: u16 = (high as u16) * 256 + (low as u16);
    assert(r % 256 == low && r / 256 == high) by (nonlinear_arith)
        requires
            r == high * 256 + low,
            low < 256,
            high < 256,
    ;
    r
}

/// Whether adding `a` and `b` carries out of the given bit position, i.e.
/// whether the sum of the low `bit + 1` bits of the operands overflows them.
pub open spec fn spec_add_carry_bit(bit: nat, a: int, b: int) -> bool {
    a % pow2_int(bit + 1) + b % pow2_int(bit + 1) >= pow2_int(bit + 1)
}

/// 2 to the given power, as a plain integer.
pub open spec fn pow2_int(e: nat) -> int
    decreases e,
{
    if e == 0 {
        1
    } else {
        2 * pow2_int((e - 1) as nat)
    }
}

/// 2 to the given power is positive.
pub proof fn lemma_pow2_pos(e: nat)
    ensures
        pow2_int(e) >= 1,
    decreases e,
{
    if e > 0 {
        lemma_pow2_pos((e - 1) as nat);
    }
}

/// Shifting 1 left by `k` computes 2 to the `k`, for shifts that fit a
/// 32-bit word.
pub proof fn lemma_pow2_shift(k: u32)
    requires
        k <= 30,
    ensures
        1u32 << k == pow2_int(k as nat),
    decreases k,
{
    if k == 0 {
        assert(1u32 << 0u32 == 1) by (bit_vector);
    } else {
        let j: u32 = (k - 1) as u32;
        lemma_pow2_shift(j);
        assert(1u32 << k == 2 * (1u32 << j)) by (bit_vector)
            requires
                1 <= k <= 30,
                j == k - 1,
        ;
    }
}

pub trait UIntExt where Self: Sized {
    /// The type's width in bits.
    spec fn bit_width() -> u32;

    /// The value as a plain integer.
    spec fn as_int(x: Self) -> int;

    /// Whether `a + b` produces a carry out of bit `bit`.
    fn test_add_carry_bit(bit: u32, a: Self, b: Self) -> (r: bool)
        requires
            bit < Self::bit_width(),
        ensures
            r == spec_add_carry_bit(bit as nat, Self::as_int(a), Self::as_int(b)),
    ;
}

impl UIntExt for u16 {
    open spec fn bit_width() -> u32 {
        16
    }

    open spec fn as_int(x: u16) -> int {
        x as int
    }

    fn test_add_carry_bit(bit: u32, a: u16, b: u16) -> (r: bool) {
        if bit >= 15 {
            let r0 = (a as u32) + (b as u32) > 0xFFFF;
            proof {
                assert(bit == 15);
                reveal_with_fuel(pow2_int, 17);
                assert(pow2_int(16) == 0x10000);
                assert(a as int % pow2_int(16) == a as int);
                assert(r0 == (a as int % pow2_int(16) + b as int % pow2_int(16) >= pow2_int(16)));
                assert(r0 == spec_add_carry_bit(bit as nat, a as int, b as int));
            }
            r0
        } else {
            let k: u32 = bit + 1;
            let m: u32 = 1u32 << k;
            proof {
                lemma_pow2_shift(k);
                lemma_pow2_pos(k as nat);
                assert(1u32 << k <= 0x8000) by (bit_vector)
                    requires
                        k <= 15,
                ;
                assert(m == pow2_int((bit as nat) + 1));
                assert(<u16 as UIntExt>::as_int(a) == a as int);
                assert(spec_add_carry_bit(bit as nat, a as int, b as int) == (a as int % (
                m as int) + b as int % (m as int) >= m));
            }
            ((a as u32) % m) + ((b as u32) % m) >= m
        }
    }
}

impl UIntExt for u8 {
    open spec fn bit_width() -> u32 {
        8
    }

    open spec fn as_int(x: u8) -> int {
        x as int
    }

    fn test_add_carry_bit(bit: u32, a: u8, b: u8) -> (r: bool) {
        if bit >= 7 {
            let r0 = (a as u16) + (b as u16) > 0xFF;
            proof {
                assert(bit == 7);
                reveal_with_fuel(pow2_int, 9);
                assert(pow2_int(8) == 0x100);
                assert(a as int % pow2_int(8) == a as int);
                assert(r0 == (a as int % pow2_int(8) + b as int % pow2_int(8) >= pow2_int(8)));
                assert(r0 == spec_add_carry_bit(bit as nat, a as int, b as int));
            }
            r0
        } else {
            let k: u32 = bit + 1;
            let m: u32 = 1u32 << k;
            proof {
                lemma_pow2_shift(k);
                lemma_pow2_pos(k as nat);
                assert(1u32 << k <= 0x80) by (bit_vector)
                    requires
                        k <= 7,
                ;
            }
            ((a as u32) % m) + ((b as u32) % m) >= m
        }
    }
}

/// Carry out of bit 3 of the unsigned addition of the low bytes, as the
/// `LD HL,SP+i8` and `ADD SP,i8` forms use it.
pub fn add_carry_bit_3(a: u16, b: u16) -> (r: bool)
    ensures
        r == spec_add_carry_bit(3, a as int, b as int),
{
    proof {
        reveal_with_fuel(pow2_int, 5);
    }
    (a % 16) + (b % 16) >= 16
}

/// Carry out of bit 7 of the unsigned addition of the low bytes.
pub fn add_carry_bit_7(a: u16, b: u16) -> (r: bool)
    ensures
        r == spec_add_carry_bit(7, a as int, b as int),
{
    proof {
        reveal_with_fuel(pow2_int, 9);
    }
    (a % 256) + (b % 256) >= 256
}

/// Carry out of bit 11 of a 16-bit addition, as `ADD HL,rr` uses it.
pub fn add_carry_bit_11(a: u16, b: u16) -> (r: bool)
    ensures
        r == spec_add_carry_bit(11, a as int, b as int),
{
    proof {
        reveal_with_fuel(pow2_int, 13);
    }
    (a % 4096) + (b % 4096) >= 4096
}

} // verus!
