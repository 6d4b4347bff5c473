//! The 8-bit ALU operations and their flag effects.
//!
//! These are pure functions taking the current flags and returning the result plus
//! new flags, so they can be tested exhaustively without a CPU or a bus. Getting
//! these right is most of getting the CPU right: the arithmetic itself is easy, but
//! the half-carry rules are where emulators quietly go wrong.
//!
//! Each operation has a spec function stating its result arithmetically — nibbles as
//! `% 16`, bytes as `% 256` — and the executable version is proved equal to it.
use vstd::prelude::*;
use super::registers::Flags;

verus! {

/// `1` for a set carry, `0` otherwise.
pub open spec fn carry_value(carry: bool) -> int {
    if carry {
        1
    } else {
        0
    }
}

pub open spec fn add_spec(a: u8, b: u8, carry_in: bool) -> (u8, Flags) {
    let c = carry_value(carry_in);
    let sum = a + b + c;
    (
        (sum % 256) as u8,
        Flags {
            zero: sum % 256 == 0,
            negative: false,
            half_carry: a % 16 + b % 16 + c > 15,
            carry: sum > 255,
        },
    )
}

pub open spec fn sub_spec(a: u8, b: u8, carry_in: bool) -> (u8, Flags) {
    let c = carry_value(carry_in);
    let diff = a - b - c;
    (
        (diff % 256) as u8,
        Flags {
            zero: diff % 256 == 0,
            negative: true,
            half_carry: a % 16 - b % 16 - c < 0,
            carry: diff < 0,
        },
    )
}

/// The flags of a logical operation: only Z depends on the result.
pub open spec fn logic_flags(result: u8, half_carry: bool) -> Flags {
    Flags { zero: result == 0, negative: false, half_carry, carry: false }
}

pub open spec fn inc_spec(value: u8, carry: bool) -> (u8, Flags) {
    let result = ((value + 1) % 256) as u8;
    (result, Flags { zero: result == 0, negative: false, half_carry: value % 16 == 15, carry })
}

pub open spec fn dec_spec(value: u8, carry: bool) -> (u8, Flags) {
    let result = ((value - 1) % 256) as u8;
    (result, Flags { zero: result == 0, negative: true, half_carry: value % 16 == 0, carry })
}

pub open spec fn add16_spec(a: u16, b: u16, zero: bool) -> (u16, Flags) {
    (
        ((a + b) % 65536) as u16,
        Flags {
            zero,
            negative: false,
            half_carry: a % 4096 + b % 4096 > 4095,
            carry: a + b > 65535,
        },
    )
}

pub open spec fn add_sp_offset_spec(sp: u16, offset: i8) -> (u16, Flags) {
    let offset_u = offset as u8;
    (
        ((sp + offset) % 65536) as u16,
        Flags {
            zero: false,
            negative: false,
            half_carry: sp % 16 + offset_u % 16 > 15,
            carry: sp % 256 + offset_u > 255,
        },
    )
}

/// The documented DAA algorithm: after an addition, add 0x60 and/or 0x06 where a
/// decimal digit overflowed; after a subtraction, take them back off where the
/// operation borrowed.
pub open spec fn daa_spec(a: u8, flags: Flags) -> (u8, Flags) {
    let (result, carry) = if flags.negative {
        let r1 = if flags.carry {
            ((a - 0x60) % 256) as u8
        } else {
            a
        };
        let r2 = if flags.half_carry {
            ((r1 - 0x06) % 256) as u8
        } else {
            r1
        };
        (r2, flags.carry)
    } else {
        let high = flags.carry || a > 0x99;
        let r1 = if high {
            ((a + 0x60) % 256) as u8
        } else {
            a
        };
        let r2 = if flags.half_carry || r1 % 16 > 9 {
            ((r1 + 0x06) % 256) as u8
        } else {
            r1
        };
        (r2, high)
    };
    (result, Flags { zero: result == 0, negative: flags.negative, half_carry: false, carry })
}

/// The flags of a rotate or shift: Z from the result, C from the bit shifted out.
pub open spec fn shift_flags_spec(result: u8, carry: bool) -> Flags {
    Flags { zero: result == 0, negative: false, half_carry: false, carry }
}

pub open spec fn rlc_spec(value: u8) -> (u8, Flags) {
    let result = ((value % 128) * 2 + value / 128) as u8;
    (result, shift_flags_spec(result, value >= 128))
}

pub open spec fn rrc_spec(value: u8) -> (u8, Flags) {
    let result = (value / 2 + (value % 2) * 128) as u8;
    (result, shift_flags_spec(result, value % 2 == 1))
}

pub open spec fn rl_spec(value: u8, carry_in: bool) -> (u8, Flags) {
    let result = ((value % 128) * 2 + carry_value(carry_in)) as u8;
    (result, shift_flags_spec(result, value >= 128))
}

pub open spec fn rr_spec(value: u8, carry_in: bool) -> (u8, Flags) {
    let result = (value / 2 + carry_value(carry_in) * 128) as u8;
    (result, shift_flags_spec(result, value % 2 == 1))
}

pub open spec fn sla_spec(value: u8) -> (u8, Flags) {
    let result = ((value % 128) * 2) as u8;
    (result, shift_flags_spec(result, value >= 128))
}

pub open spec fn sra_spec(value: u8) -> (u8, Flags) {
    let result = (value / 2 + (if value >= 128 {
        128int
    } else {
        0
    })) as u8;
    (result, shift_flags_spec(result, value % 2 == 1))
}

pub open spec fn srl_spec(value: u8) -> (u8, Flags) {
    let result = (value / 2) as u8;
    (result, shift_flags_spec(result, value % 2 == 1))
}

pub open spec fn swap_spec(value: u8) -> (u8, Flags) {
    let result = ((value % 16) * 16 + value / 16) as u8;
    (result, shift_flags_spec(result, false))
}

/// The single-bit mask for bit `index`.
pub open spec fn bit_mask(index: u8) -> u8 {
    (1u8 << index) as u8
}

pub open spec fn bit_spec(value: u8, index: u8, carry: bool) -> Flags {
    Flags { zero: value & bit_mask(index) == 0, negative: false, half_carry: true, carry }
}

pub open spec fn res_spec(value: u8, index: u8) -> u8 {
    value & !bit_mask(index)
}

pub open spec fn set_spec(value: u8, index: u8) -> u8 {
    value | bit_mask(index)
}

/// The half-carry (H) flag is the carry out of bit 3 into bit 4. The trick for
/// computing it: mask both operands to their low nibble, do the operation, and see
/// whether the result overflowed the nibble.
pub fn add(a: u8, b: u8, carry_in: bool) -> (r: (u8, Flags))
    ensures
        r == add_spec(a, b, carry_in),
{
    let c: u16 = if carry_in {
        1
    } else {
        0
    };
    let result: u16 = a as u16 + b as u16 + c;
    let half: u16 = (a % 16) as u16 + (b % 16) as u16 + c;
    let byte = (result % 256) as u8;
    (byte, Flags { zero: byte == 0, negative: false, half_carry: half > 0x0F, carry: result > 0xFF })
}

/// Subtraction sets N, and its H flag means "borrow from bit 4" — computed by
/// checking whether the low nibble of `a` is smaller than what's being taken from it.
pub fn sub(a: u8, b: u8, carry_in: bool) -> (r: (u8, Flags))
    ensures
        r == sub_spec(a, b, carry_in),
{
    let c: u16 = if carry_in {
        1
    } else {
        0
    };
    let taken: u16 = b as u16 + c;
    let byte = ((a as u16 + 256 - taken) % 256) as u8;
    proof {
        let diff = a - b - carry_value(carry_in);
        assert((a as int + 256 - taken) % 256 == diff % 256) by {
            vstd::arithmetic::div_mod::lemma_mod_add_multiples_vanish(diff, 256);
        }
    }
    (
        byte,
        Flags {
            zero: byte == 0,
            negative: true,
            half_carry: (b % 16) as u16 + c > (a % 16) as u16,
            carry: taken > a as u16,
        },
    )
}

/// AND sets H unconditionally. There is no logic to it — it is simply how the
/// hardware behaves, and code does depend on it.
pub fn and(a: u8, b: u8) -> (r: (u8, Flags))
    ensures
        r == (a & b, logic_flags(a & b, true)),
{
    let result = a & b;
    (result, Flags { zero: result == 0, negative: false, half_carry: true, carry: false })
}

pub fn or(a: u8, b: u8) -> (r: (u8, Flags))
    ensures
        r == (a | b, logic_flags(a | b, false)),
{
    let result = a | b;
    (result, Flags { zero: result == 0, negative: false, half_carry: false, carry: false })
}

pub fn xor(a: u8, b: u8) -> (r: (u8, Flags))
    ensures
        r == (a ^ b, logic_flags(a ^ b, false)),
{
    let result = a ^ b;
    (result, Flags { zero: result == 0, negative: false, half_carry: false, carry: false })
}

/// CP is SUB that throws the result away and keeps only the flags.
pub fn cp(a: u8, b: u8) -> (r: Flags)
    ensures
        r == sub_spec(a, b, false).1,
{
    self::sub(a, b, false).1
}

/// INC and DEC deliberately leave the carry flag alone — the one asymmetry with
/// ADD/SUB, and a common source of bugs. The caller must pass the old carry through.
pub fn inc(value: u8, carry: bool) -> (r: (u8, Flags))
    ensures
        r == inc_spec(value, carry),
        r.1.carry == carry,
{
    let result = ((value as u16 + 1) % 256) as u8;
    (
        result,
        Flags { zero: result == 0, negative: false, half_carry: value % 16 == 0x0F, carry },
    )
}

pub fn dec(value: u8, carry: bool) -> (r: (u8, Flags))
    ensures
        r == dec_spec(value, carry),
        r.1.carry == carry,
{
    let result = ((value as u16 + 255) % 256) as u8;
    proof {
        vstd::arithmetic::div_mod::lemma_mod_add_multiples_vanish(value - 1, 256);
    }
    (result, Flags { zero: result == 0, negative: true, half_carry: value % 16 == 0, carry })
}

/// 16-bit ADD HL, rr.
///
/// The hardware performs this as two 8-bit adds, low byte then high byte, so the H
/// and C flags come from the *upper* byte's operation: carry out of bit 11 and bit
/// 15 respectively. Z is left untouched.
pub fn add16(a: u16, b: u16, zero: bool) -> (r: (u16, Flags))
    ensures
        r == add16_spec(a, b, zero),
{
    let result: u32 = a as u32 + b as u32;
    (
        (result % 65536) as u16,
        Flags {
            zero,
            negative: false,
            half_carry: (a % 4096) + (b % 4096) > 0x0FFF,
            carry: result > 0xFFFF,
        },
    )
}

/// ADD SP, e and LD HL, SP+e.
///
/// The odd one. Despite being a 16-bit result, the flags are computed from an 8-bit
/// addition of SP's low byte and the operand — so H is carry out of bit 3 and C is
/// carry out of bit 7. Z and N are always cleared, even though the result can be
/// zero. The offset is signed but the flag arithmetic treats it as unsigned.
pub fn add_sp_offset(sp: u16, offset: i8) -> (r: (u16, Flags))
    ensures
        r == add_sp_offset_spec(sp, offset),
{
    let offset_u = offset as u8;
    let shifted: i32 = sp as i32 + offset as i32 + 65536;
    proof {
        vstd::arithmetic::div_mod::lemma_mod_add_multiples_vanish(sp + offset, 65536);
    }
    (
        (shifted % 65536) as u16,
        Flags {
            zero: false,
            negative: false,
            half_carry: (sp % 16) + (offset_u % 16) as u16 > 0x0F,
            carry: (sp % 256) + offset_u as u16 > 0xFF,
        },
    )
}

/// DAA: decimal adjust the accumulator after a BCD add or subtract.
///
/// BCD stores one decimal digit per nibble, but the ALU added in binary, so a nibble
/// may hold 0xA-0xF or have carried. Adding 0x06 or 0x60 fixes up the low and high
/// digit respectively.
///
/// It reads the N flag to know whether to add or subtract the correction, which is
/// the only reason N exists.
pub fn daa(a: u8, flags: Flags) -> (r: (u8, Flags))
    ensures
        r == daa_spec(a, flags),
        !r.1.half_carry,
        r.1.negative == flags.negative,
{
    let mut result = a;
    let mut carry = flags.carry;

    if flags.negative {
        // After a subtraction, only correct where the earlier op flagged a borrow.
        if flags.carry {
            result = ((result as u16 + 256 - 0x60) % 256) as u8;
            proof {
                vstd::arithmetic::div_mod::lemma_mod_add_multiples_vanish(a - 0x60, 256);
            }
        }
        let r1 = result;
        if flags.half_carry {
            result = ((result as u16 + 256 - 0x06) % 256) as u8;
            proof {
                vstd::arithmetic::div_mod::lemma_mod_add_multiples_vanish(r1 - 0x06, 256);
            }
        }
    } else {
        // After an addition, also correct when a digit exceeds 9.
        if flags.carry || result > 0x99 {
            result = ((result as u16 + 0x60) % 256) as u8;
            carry = true;
        }
        if flags.half_carry || result % 16 > 0x09 {
            result = ((result as u16 + 0x06) % 256) as u8;
        }
    }

    (result, Flags { zero: result == 0, negative: flags.negative, half_carry: false, carry })
}

/// Rotate left, bit 7 wrapping into bit 0 *and* into the carry flag.
pub fn rlc(value: u8) -> (r: (u8, Flags))
    ensures
        r == rlc_spec(value),
{
    let result = ((value % 128) * 2 + value / 128) as u8;
    (result, shift_flags(result, value >= 0x80))
}

pub fn rrc(value: u8) -> (r: (u8, Flags))
    ensures
        r == rrc_spec(value),
{
    let result = (value / 2 + (value % 2) * 128) as u8;
    (result, shift_flags(result, value % 2 == 1))
}

/// Rotate left *through* the carry: carry becomes bit 0, bit 7 becomes the new carry.
/// A 9-bit rotation, unlike RLC.
pub fn rl(value: u8, carry_in: bool) -> (r: (u8, Flags))
    ensures
        r == rl_spec(value, carry_in),
{
    let c: u8 = if carry_in {
        1
    } else {
        0
    };
    let result = (value % 128) * 2 + c;
    (result, shift_flags(result, value >= 0x80))
}

pub fn rr(value: u8, carry_in: bool) -> (r: (u8, Flags))
    ensures
        r == rr_spec(value, carry_in),
{
    let c: u8 = if carry_in {
        128
    } else {
        0
    };
    let result = value / 2 + c;
    (result, shift_flags(result, value % 2 == 1))
}

/// Shift left, zero into bit 0.
pub fn sla(value: u8) -> (r: (u8, Flags))
    ensures
        r == sla_spec(value),
{
    let result = (value % 128) * 2;
    (result, shift_flags(result, value >= 0x80))
}

/// Arithmetic shift right: bit 7 is preserved, so the sign survives.
pub fn sra(value: u8) -> (r: (u8, Flags))
    ensures
        r == sra_spec(value),
{
    let sign: u8 = if value >= 0x80 {
        0x80
    } else {
        0
    };
    let result = value / 2 + sign;
    (result, shift_flags(result, value % 2 == 1))
}

/// Logical shift right: zero into bit 7.
pub fn srl(value: u8) -> (r: (u8, Flags))
    ensures
        r == srl_spec(value),
{
    let result = value / 2;
    (result, shift_flags(result, value % 2 == 1))
}

pub fn swap(value: u8) -> (r: (u8, Flags))
    ensures
        r == swap_spec(value),
{
    let result = (value % 16) * 16 + value / 16;
    (result, shift_flags(result, false))
}

fn shift_flags(result: u8, carry: bool) -> (r: Flags)
    ensures
        r == shift_flags_spec(result, carry),
{
    Flags { zero: result == 0, negative: false, half_carry: false, carry }
}

/// BIT b, r: test a bit and set Z to its complement. Carry is preserved.
pub fn bit(value: u8, index: u8, carry: bool) -> (r: Flags)
    requires
        index < 8,
    ensures
        r == bit_spec(value, index, carry),
{
    Flags { zero: value & (1u8 << index) == 0, negative: false, half_carry: true, carry }
}

pub fn res(value: u8, index: u8) -> (r: u8)
    requires
        index < 8,
    ensures
        r == res_spec(value, index),
{
    value & !(1u8 << index)
}

pub fn set(value: u8, index: u8) -> (r: u8)
    requires
        index < 8,
    ensures
        r == set_spec(value, index),
{
    value | (1u8 << index)
}

/// The BCD encoding of a number below 100: one decimal digit per nibble.
pub open spec fn bcd(n: int) -> u8 {
    ((n / 10) * 16 + n % 10) as u8
}

/// `16 * hi + lo` splits back into `hi` and `lo` when `lo` is a nibble.
proof fn lemma_nibbles(hi: int, lo: int)
    requires
        0 <= lo < 16,
    ensures
        (16 * hi + lo) % 16 == lo,
        (16 * hi + lo) / 16 == hi,
{
    vstd::arithmetic::div_mod::lemma_fundamental_div_mod_converse(16 * hi + lo, 16, hi, lo);
}

/// `n % m` for `n` known to lie within one period above a multiple `k * m`.
proof fn lemma_mod_in_period(n: int, m: int, k: int)
    requires
        m > 0,
        k * m <= n < (k + 1) * m,
    ensures
        n % m == n - k * m,
{
    assert((k + 1) * m == k * m + m) by (nonlinear_arith);
    vstd::arithmetic::div_mod::lemma_fundamental_div_mod_converse(n, m, k, n - k * m);
}

proof fn lemma_daa_after_add_digits(xh: int, xl: int, yh: int, yl: int)
    requires
        0 <= xh < 10,
        0 <= xl < 10,
        0 <= yh < 10,
        0 <= yl < 10,
    ensures
        ({
            let x = xh * 10 + xl;
            let y = yh * 10 + yl;
            let (raw, flags) = add_spec(bcd(x), bcd(y), false);
            let (got, out) = daa_spec(raw, flags);
            got == bcd((x + y) % 100) && out.carry == (x + y >= 100)
        }),
{
    let x = xh * 10 + xl;
    let y = yh * 10 + yl;
    lemma_mod_in_period(x, 10, xh);
    lemma_mod_in_period(y, 10, yh);
    assert(bcd(x) == xh * 16 + xl);
    assert(bcd(y) == yh * 16 + yl);
    lemma_nibbles(xh, xl);
    lemma_nibbles(yh, yl);
    let lo = xl + yl;
    let hi = xh + yh;
    let sum = 16 * hi + lo;
    let (raw, flags) = add_spec(bcd(x), bcd(y), false);
    assert(flags.half_carry == (lo >= 16));
    assert(flags.carry == (sum > 255));
    let (got, out) = daa_spec(raw, flags);
    if lo < 10 {
        if hi < 10 {
            lemma_mod_in_period(sum, 256, 0);
            lemma_nibbles(hi, lo);
            lemma_mod_in_period(x + y, 100, 0);
            lemma_mod_in_period(x + y, 10, hi);
            assert(got == sum);
        } else {
            let k = if sum > 255 { 1int } else { 0int };
            lemma_mod_in_period(sum, 256, k);
            lemma_mod_in_period(sum + 96, 256, 1);
            lemma_mod_in_period(raw + 96, 256, 1 - k);
            lemma_nibbles(hi - 10, lo);
            lemma_mod_in_period(x + y, 100, 1);
            lemma_mod_in_period(x + y - 100, 10, hi - 10);
            assert(got == 16 * (hi - 10) + lo);
        }
    } else if lo < 16 {
        if hi < 9 {
            lemma_mod_in_period(sum, 256, 0);
            lemma_nibbles(hi, lo);
            lemma_mod_in_period(sum + 6, 256, 0);
            lemma_nibbles(hi + 1, lo - 10);
            lemma_mod_in_period(x + y, 100, 0);
            lemma_mod_in_period(x + y, 10, hi + 1);
            assert(got == 16 * (hi + 1) + lo - 10);
        } else if hi == 9 {
            lemma_mod_in_period(sum, 256, 0);
            lemma_mod_in_period(sum + 96, 256, 0);
            lemma_nibbles(15, lo);
            lemma_mod_in_period(sum + 102, 256, 1);
            lemma_mod_in_period(x + y, 100, 1);
            lemma_mod_in_period(x + y - 100, 10, 0);
            assert(got == lo - 10);
        } else {
            let k = if sum > 255 { 1int } else { 0int };
            lemma_mod_in_period(sum, 256, k);
            lemma_mod_in_period(raw + 96, 256, 1 - k);
            lemma_nibbles(hi - 10, lo);
            lemma_mod_in_period(16 * (hi - 10) + lo + 6, 256, 0);
            lemma_nibbles(hi - 9, lo - 10);
            lemma_mod_in_period(x + y, 100, 1);
            lemma_mod_in_period(x + y - 100, 10, hi - 9);
            assert(got == 16 * (hi - 9) + lo - 10);
        }
    } else {
        if hi < 9 {
            lemma_mod_in_period(sum, 256, 0);
            lemma_mod_in_period(sum + 6, 256, 0);
            lemma_nibbles(hi + 1, lo - 10);
            lemma_mod_in_period(x + y, 100, 0);
            lemma_mod_in_period(x + y, 10, hi + 1);
            assert(got == 16 * (hi + 1) + lo - 10);
        } else {
            let k = if sum > 255 { 1int } else { 0int };
            lemma_mod_in_period(sum, 256, k);
            lemma_mod_in_period(raw + 96, 256, 1 - k);
            lemma_mod_in_period(16 * (hi - 9) + lo - 16 + 6, 256, 0);
            lemma_nibbles(hi - 9, lo - 10);
            lemma_mod_in_period(x + y, 100, 1);
            lemma_mod_in_period(x + y - 100, 10, hi - 9);
            assert(got == 16 * (hi - 9) + lo - 10);
        }
    }
}

proof fn lemma_daa_after_sub_digits(xh: int, xl: int, yh: int, yl: int)
    requires
        0 <= xh < 10,
        0 <= xl < 10,
        0 <= yh < 10,
        0 <= yl < 10,
    ensures
        ({
            let x = xh * 10 + xl;
            let y = yh * 10 + yl;
            let (raw, flags) = sub_spec(bcd(x), bcd(y), false);
            let (got, out) = daa_spec(raw, flags);
            got == bcd((x - y) % 100) && out.carry == (x < y)
        }),
{
    let x = xh * 10 + xl;
    let y = yh * 10 + yl;
    lemma_mod_in_period(x, 10, xh);
    lemma_mod_in_period(y, 10, yh);
    assert(bcd(x) == xh * 16 + xl);
    assert(bcd(y) == yh * 16 + yl);
    lemma_nibbles(xh, xl);
    lemma_nibbles(yh, yl);
    let lo = xl - yl;
    let hi = xh - yh;
    let diff = 16 * hi + lo;
    let (raw, flags) = sub_spec(bcd(x), bcd(y), false);
    assert(flags.half_carry == (lo < 0));
    assert(flags.carry == (diff < 0));
    let (got, out) = daa_spec(raw, flags);
    if lo >= 0 {
        if hi >= 0 {
            lemma_mod_in_period(diff, 256, 0);
            lemma_mod_in_period(x - y, 100, 0);
            lemma_mod_in_period(x - y, 10, hi);
            assert(got == diff);
        } else {
            lemma_mod_in_period(diff, 256, -1);
            lemma_mod_in_period(diff + 256 - 96, 256, 0);
            lemma_mod_in_period(x - y, 100, -1);
            lemma_mod_in_period(x - y + 100, 10, hi + 10);
            assert(got == 16 * (hi + 10) + lo);
        }
    } else {
        if hi >= 1 {
            lemma_mod_in_period(diff, 256, 0);
            lemma_mod_in_period(diff - 6, 256, 0);
            lemma_mod_in_period(x - y, 100, 0);
            lemma_mod_in_period(x - y, 10, hi - 1);
            assert(got == 16 * (hi - 1) + lo + 10);
        } else {
            lemma_mod_in_period(diff, 256, -1);
            lemma_mod_in_period(diff + 256 - 96, 256, 0);
            lemma_mod_in_period(diff + 256 - 102, 256, 0);
            lemma_mod_in_period(x - y, 100, -1);
            lemma_mod_in_period(x - y + 100, 10, hi + 9);
            assert(got == 16 * (hi + 9) + lo + 10);
        }
    }
}

/// DAA makes binary arithmetic on BCD values agree with decimal arithmetic: for any
/// two two-digit decimal numbers, ADD then DAA gives the BCD encoding of their sum
/// modulo 100, with the carry flag set exactly when the sum reached 100; SUB then DAA
/// gives the BCD encoding of the difference modulo 100, with the carry flag set
/// exactly when the subtraction borrowed.
pub proof fn lemma_daa_is_decimal_arithmetic(x: int, y: int)
    requires
        0 <= x < 100,
        0 <= y < 100,
    ensures
        ({
            let (raw, flags) = add_spec(bcd(x), bcd(y), false);
            let (got, out) = daa_spec(raw, flags);
            got == bcd((x + y) % 100) && out.carry == (x + y >= 100) && out.zero == (got == 0)
        }),
        ({
            let (raw, flags) = sub_spec(bcd(x), bcd(y), false);
            let (got, out) = daa_spec(raw, flags);
            got == bcd((x - y) % 100) && out.carry == (x < y) && out.zero == (got == 0)
        }),
{
    lemma_daa_after_add_digits(x / 10, x % 10, y / 10, y % 10);
    lemma_daa_after_sub_digits(x / 10, x % 10, y / 10, y % 10);
}

/// Rotating right undoes rotating left, through the carry or not: RRC after RLC, and
/// RR after RL fed the carry RL produced, give back the original byte — and RR hands
/// back the carry that went into RL.
pub proof fn lemma_rotations_undo(value: u8, carry: bool)
    ensures
        rrc_spec(rlc_spec(value).0).0 == value,
        rlc_spec(rrc_spec(value).0).0 == value,
        rr_spec(rl_spec(value, carry).0, rl_spec(value, carry).1.carry).0 == value,
        rr_spec(rl_spec(value, carry).0, rl_spec(value, carry).1.carry).1.carry == carry,
        rl_spec(rr_spec(value, carry).0, rr_spec(value, carry).1.carry).0 == value,
{
}

/// Swapping nibbles twice is the identity.
pub proof fn lemma_swap_twice(value: u8)
    ensures
        swap_spec(swap_spec(value).0).0 == value,
{
}

/// Subtracting what was added gives the original value back, for any carry-in to both.
pub proof fn lemma_sub_undoes_add(a: u8, b: u8, carry: bool)
    ensures
        sub_spec(add_spec(a, b, carry).0, b, carry).0 == a,
{
    let c = carry_value(carry);
    let s = (a + b + c) % 256;
    let k = if a + b + c > 255 { 1int } else { 0int };
    lemma_mod_in_period(a + b + c, 256, k);
    lemma_mod_in_period(s - b - c, 256, -k);
}

/// SET and RES touch exactly one bit: afterwards BIT reports it set or clear, every
/// other bit is unchanged, and each undoes the other on that bit.
pub proof fn lemma_set_and_res(value: u8, index: u8, other: u8)
    requires
        index < 8,
        other < 8,
        other != index,
    ensures
        !bit_spec(set_spec(value, index), index, false).zero,
        bit_spec(res_spec(value, index), index, false).zero,
        bit_spec(set_spec(value, index), other, false).zero == bit_spec(value, other, false).zero,
        bit_spec(res_spec(value, index), other, false).zero == bit_spec(value, other, false).zero,
        res_spec(set_spec(value, index), index) == res_spec(value, index),
        set_spec(res_spec(value, index), index) == set_spec(value, index),
{
    assert(index < 8 && other < 8 && other != index ==> (
        (value | (1u8 << index)) & (1u8 << index) != 0
        && (value & !(1u8 << index)) & (1u8 << index) == 0
        && (((value | (1u8 << index)) & (1u8 << other) == 0) == (value & (1u8 << other) == 0))
        && (((value & !(1u8 << index)) & (1u8 << other) == 0) == (value & (1u8 << other) == 0))
        && (value | (1u8 << index)) & !(1u8 << index) == value & !(1u8 << index)
        && (value & !(1u8 << index)) | (1u8 << index) == value | (1u8 << index))) by (bit_vector);
}

/// INC and DEC leave the carry flag alone.
pub proof fn lemma_inc_dec_keep_carry(value: u8, carry: bool)
    ensures
        inc_spec(value, carry).1.carry == carry,
        dec_spec(value, carry).1.carry == carry,
{
}

/// DAA always clears the half-carry flag.
pub proof fn lemma_daa_clears_half_carry(a: u8, flags: Flags)
    ensures
        !daa_spec(a, flags).1.half_carry,
{
}

/// SRA keeps the sign: bit 7 comes out as it went in, and the rest is a halving.
pub proof fn lemma_sra_keeps_the_sign(value: u8)
    ensures
        (sra_spec(value).0 >= 128) == (value >= 128),
        sra_spec(value).0 % 128 == (value / 2) % 128,
{
}

} // verus!
