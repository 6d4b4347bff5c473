//! The SM83 register file.
//!
//! The CPU has eight 8-bit registers (A, F, B, C, D, E, H, L) plus the 16-bit PC and
//! SP. The 8-bit ones pair up as AF, BC, DE, and HL, and a lot of instructions treat
//! a pair as a single 16-bit value — usually as an address. Pairing is big-endian:
//! the first-named register is the high byte.
use vstd::prelude::*;
use crate::text::{ascii_chars, hex_byte_text, hex_digit, hex_word_digits, hex_word_text};

verus! {

/// The flags register, F.
///
/// Only the top four bits exist as real storage; the low nibble is hardwired to zero
/// and stays zero even if you `POP AF` a value with those bits set. Emulating that
/// masking matters — Blargg's test ROMs check it.
#[derive(Debug, Clone, Copy, PartialEq, Eq, Structural)]
pub struct Flags {
    /// Z — set when the result of an operation was zero.
    pub zero: bool,
    /// N — set when the last operation was a subtraction. Only DAA reads it.
    pub negative: bool,
    /// H — carry out of bit 3 into bit 4. Only DAA reads it.
    pub half_carry: bool,
    /// C — carry out of bit 7 (or bit 15 for 16-bit adds).
    pub carry: bool,
}

impl Default for Flags {
    fn default() -> (r: Self)
        ensures
            !r.zero && !r.negative && !r.half_carry && !r.carry,
    {
        Flags { zero: false, negative: false, half_carry: false, carry: false }
    }
}

/// Bit 7 of F: Z.
pub const FLAG_ZERO: u8 = 0x80;
/// Bit 6 of F: N.
pub const FLAG_NEGATIVE: u8 = 0x40;
/// Bit 5 of F: H.
pub const FLAG_HALF_CARRY: u8 = 0x20;
/// Bit 4 of F: C.
pub const FLAG_CARRY: u8 = 0x10;

impl Flags {
    /// The byte F holds for these flags: Z, N, H, C from bit 7 down, low nibble zero.
    pub open spec fn bits_spec(self) -> u8 {
        (if self.zero { 0x80u8 } else { 0u8 }) | (if self.negative { 0x40u8 } else { 0u8 }) | (
        if self.half_carry {
            0x20u8
        } else {
            0u8
        }) | (if self.carry { 0x10u8 } else { 0u8 })
    }

    /// The flags a raw byte decodes to; the low nibble is ignored.
    pub open spec fn from_bits_spec(bits: u8) -> Flags {
        Flags {
            zero: bits & 0x80 != 0,
            negative: bits & 0x40 != 0,
            half_carry: bits & 0x20 != 0,
            carry: bits & 0x10 != 0,
        }
    }

    pub fn bits(self) -> (r: u8)
        ensures
            r == self.bits_spec(),
            r & 0x0F == 0,
    {
        proof {
            lemma_bits_low_nibble_clear(self);
        }
        let z: u8 = if self.zero { FLAG_ZERO } else { 0 };
        let n: u8 = if self.negative { FLAG_NEGATIVE } else { 0 };
        let h: u8 = if self.half_carry { FLAG_HALF_CARRY } else { 0 };
        let c: u8 = if self.carry { FLAG_CARRY } else { 0 };
        z | n | h | c
    }

    /// Rebuilds flags from a raw byte, discarding the low nibble as the hardware does.
    pub fn from_bits(bits: u8) -> (r: Self)
        ensures
            r == Self::from_bits_spec(bits),
    {
        Flags {
            zero: bits & FLAG_ZERO != 0,
            negative: bits & FLAG_NEGATIVE != 0,
            half_carry: bits & FLAG_HALF_CARRY != 0,
            carry: bits & FLAG_CARRY != 0,
        }
    }
}

proof fn lemma_bits_low_nibble_clear(f: Flags)
    ensures
        f.bits_spec() & 0x0F == 0,
{
    let z = if f.zero { 0x80u8 } else { 0u8 };
    let n = if f.negative { 0x40u8 } else { 0u8 };
    let h = if f.half_carry { 0x20u8 } else { 0u8 };
    let c = if f.carry { 0x10u8 } else { 0u8 };
    assert((z == 0 || z == 0x80) && (n == 0 || n == 0x40) && (h == 0 || h == 0x20) && (c == 0
        || c == 0x10) ==> (z | n | h | c) & 0x0F == 0) by (bit_vector);
}

/// Encoding flags into F and decoding them back gives the same flags.
pub proof fn lemma_flags_round_trip(f: Flags)
    ensures
        Flags::from_bits_spec(f.bits_spec()) == f,
{
    let z = if f.zero { 0x80u8 } else { 0u8 };
    let n = if f.negative { 0x40u8 } else { 0u8 };
    let h = if f.half_carry { 0x20u8 } else { 0u8 };
    let c = if f.carry { 0x10u8 } else { 0u8 };
    assert((z == 0 || z == 0x80) && (n == 0 || n == 0x40) && (h == 0 || h == 0x20) && (c == 0
        || c == 0x10) ==> (((z | n | h | c) & 0x80 != 0) == (z == 0x80) && ((z | n | h | c) & 0x40
        != 0) == (n == 0x40) && ((z | n | h | c) & 0x20 != 0) == (h == 0x20) && ((z | n | h | c)
        & 0x10 != 0) == (c == 0x10))) by (bit_vector);
}

/// Decoding a byte into flags and encoding it back keeps exactly the top nibble: the
/// low nibble of F does not exist.
pub proof fn lemma_bits_of_from_bits(bits: u8)
    ensures
        Flags::from_bits_spec(bits).bits_spec() == bits & 0xF0,
{
    let f = Flags::from_bits_spec(bits);
    assert(((if bits & 0x80 != 0 { 0x80u8 } else { 0u8 }) | (if bits & 0x40 != 0 {
        0x40u8
    } else {
        0u8
    }) | (if bits & 0x20 != 0 { 0x20u8 } else { 0u8 }) | (if bits & 0x10 != 0 {
        0x10u8
    } else {
        0u8
    })) == bits & 0xF0) by (bit_vector);
}

/// One of the 8-bit registers addressable by the 3-bit `r` field in an opcode.
///
/// The encoding 0-7 is B, C, D, E, H, L, (HL), A. Slot 6 is not a register at all but
/// a memory access through HL, which is why it is absent here and handled separately
/// by the decoder.
#[derive(Debug, Clone, Copy, PartialEq, Eq, Structural)]
pub enum Reg8 {
    A,
    B,
    C,
    D,
    E,
    H,
    L,
}

/// A 16-bit register or register pair.
#[derive(Debug, Clone, Copy, PartialEq, Eq, Structural)]
pub enum Reg16 {
    AF,
    BC,
    DE,
    HL,
    SP,
}

#[derive(Debug, Clone, Copy, PartialEq, Eq, Structural)]
pub struct Registers {
    pub a: u8,
    pub f: Flags,
    pub b: u8,
    pub c: u8,
    pub d: u8,
    pub e: u8,
    pub h: u8,
    pub l: u8,
    pub pc: u16,
    pub sp: u16,
}

impl Default for Registers {
    fn default() -> (r: Self)
        ensures
            r == Registers::zeroed(),
    {
        Registers {
            a: 0,
            f: Flags { zero: false, negative: false, half_carry: false, carry: false },
            b: 0,
            c: 0,
            d: 0,
            e: 0,
            h: 0,
            l: 0,
            pc: 0,
            sp: 0,
        }
    }
}

/// A register pair as the 16-bit value it forms: `hi` is the high byte.
pub open spec fn pair(hi: u8, lo: u8) -> u16 {
    (hi as int * 256 + lo as int) as u16
}

/// The high byte of a 16-bit value.
pub open spec fn high_byte(value: u16) -> u8 {
    (value as int / 256) as u8
}

/// The low byte of a 16-bit value.
pub open spec fn low_byte(value: u16) -> u8 {
    (value as int % 256) as u8
}

/// Splits a 16-bit value into its big-endian bytes.
pub fn split_u16(value: u16) -> (r: (u8, u8))
    ensures
        r.0 == high_byte(value),
        r.1 == low_byte(value),
        pair(r.0, r.1) == value,
{
    ((value / 256) as u8, (value % 256) as u8)
}

/// Joins a big-endian byte pair into a 16-bit value.
pub fn join_u16(hi: u8, lo: u8) -> (r: u16)
    ensures
        r == pair(hi, lo),
        high_byte(r) == hi,
        low_byte(r) == lo,
{
    hi as u16 * 256 + lo as u16
}

impl Registers {
    pub open spec fn zeroed() -> Registers {
        Registers {
            a: 0,
            f: Flags { zero: false, negative: false, half_carry: false, carry: false },
            b: 0,
            c: 0,
            d: 0,
            e: 0,
            h: 0,
            l: 0,
            pc: 0,
            sp: 0,
        }
    }

    /// The state the DMG boot ROM leaves behind.
    pub open spec fn post_boot_spec() -> Registers {
        Registers {
            a: 0x01,
            f: Flags::from_bits_spec(0xB0),
            b: 0x00,
            c: 0x13,
            d: 0x00,
            e: 0xD8,
            h: 0x01,
            l: 0x4D,
            pc: 0x0100,
            sp: 0xFFFE,
        }
    }

    pub open spec fn get8_spec(self, reg: Reg8) -> u8 {
        match reg {
            Reg8::A => self.a,
            Reg8::B => self.b,
            Reg8::C => self.c,
            Reg8::D => self.d,
            Reg8::E => self.e,
            Reg8::H => self.h,
            Reg8::L => self.l,
        }
    }

    pub open spec fn set8_spec(self, reg: Reg8, value: u8) -> Registers {
        match reg {
            Reg8::A => Registers { a: value, ..self },
            Reg8::B => Registers { b: value, ..self },
            Reg8::C => Registers { c: value, ..self },
            Reg8::D => Registers { d: value, ..self },
            Reg8::E => Registers { e: value, ..self },
            Reg8::H => Registers { h: value, ..self },
            Reg8::L => Registers { l: value, ..self },
        }
    }

    pub open spec fn get16_spec(self, reg: Reg16) -> u16 {
        match reg {
            Reg16::AF => pair(self.a, self.f.bits_spec()),
            Reg16::BC => pair(self.b, self.c),
            Reg16::DE => pair(self.d, self.e),
            Reg16::HL => pair(self.h, self.l),
            Reg16::SP => self.sp,
        }
    }

    pub open spec fn set16_spec(self, reg: Reg16, value: u16) -> Registers {
        let hi = high_byte(value);
        let lo = low_byte(value);
        match reg {
            Reg16::AF => Registers { a: hi, f: Flags::from_bits_spec(lo), ..self },
            Reg16::BC => Registers { b: hi, c: lo, ..self },
            Reg16::DE => Registers { d: hi, e: lo, ..self },
            Reg16::HL => Registers { h: hi, l: lo, ..self },
            Reg16::SP => Registers { sp: value, ..self },
        }
    }

    /// Post-boot register state for a DMG.
    ///
    /// The boot ROM leaves these values behind when it hands control to the
    /// cartridge at 0x0100. Since we don't run a boot ROM, we start here instead —
    /// games do rely on some of it, and test ROMs assume it.
    ///
    /// A=0x01 identifies the hardware model, and the F value of 0xB0 is a side effect
    /// of the boot ROM's final header-checksum comparison rather than anything
    /// meaningful.
    pub fn post_boot_dmg() -> (r: Self)
        ensures
            r == Self::post_boot_spec(),
    {
        Registers {
            a: 0x01,
            f: Flags::from_bits(0xB0),
            b: 0x00,
            c: 0x13,
            d: 0x00,
            e: 0xD8,
            h: 0x01,
            l: 0x4D,
            pc: 0x0100,
            sp: 0xFFFE,
        }
    }

    pub fn get8(&self, reg: Reg8) -> (r: u8)
        ensures
            r == self.get8_spec(reg),
    {
        match reg {
            Reg8::A => self.a,
            Reg8::B => self.b,
            Reg8::C => self.c,
            Reg8::D => self.d,
            Reg8::E => self.e,
            Reg8::H => self.h,
            Reg8::L => self.l,
        }
    }

    pub fn set8(&mut self, reg: Reg8, value: u8)
        ensures
            *final(self) == old(self).set8_spec(reg, value),
    {
        match reg {
            Reg8::A => self.a = value,
            Reg8::B => self.b = value,
            Reg8::C => self.c = value,
            Reg8::D => self.d = value,
            Reg8::E => self.e = value,
            Reg8::H => self.h = value,
            Reg8::L => self.l = value,
        }
    }

    pub fn get16(&self, reg: Reg16) -> (r: u16)
        ensures
            r == self.get16_spec(reg),
    {
        match reg {
            Reg16::AF => join_u16(self.a, self.f.bits()),
            Reg16::BC => join_u16(self.b, self.c),
            Reg16::DE => join_u16(self.d, self.e),
            Reg16::HL => join_u16(self.h, self.l),
            Reg16::SP => self.sp,
        }
    }

    pub fn set16(&mut self, reg: Reg16, value: u16)
        ensures
            *final(self) == old(self).set16_spec(reg, value),
    {
        let (hi, lo) = split_u16(value);
        match reg {
            // Writing AF goes through Flags::from_bits, which drops the low nibble.
            Reg16::AF => {
                self.a = hi;
                self.f = Flags::from_bits(lo);
            },
            Reg16::BC => {
                self.b = hi;
                self.c = lo;
            },
            Reg16::DE => {
                self.d = hi;
                self.e = lo;
            },
            Reg16::HL => {
                self.h = hi;
                self.l = lo;
            },
            Reg16::SP => self.sp = value,
        }
    }
}

/// Reading a pair back after writing it gives the value written — except AF, whose
/// low byte loses its low nibble on the way into F.
pub proof fn lemma_get16_after_set16(regs: Registers, reg: Reg16, value: u16)
    ensures
        regs.set16_spec(reg, value).get16_spec(reg) == if reg == Reg16::AF {
            (value as int / 16 * 16) as u16
        } else {
            value
        },
{
    if reg == Reg16::AF {
        let lo = low_byte(value);
        lemma_bits_of_from_bits(lo);
        assert(lo & 0xF0 == lo / 16 * 16) by (bit_vector);
    }
}

/// Writing one pair leaves the other pairs alone.
pub proof fn lemma_set16_frames_other_pairs(regs: Registers, reg: Reg16, other: Reg16, value: u16)
    requires
        reg != other,
    ensures
        regs.set16_spec(reg, value).get16_spec(other) == regs.get16_spec(other),
{
}


/// A flag as the register line shows it: its letter when set, a dash when clear.
fn flag_text(set: bool, letter: &'static str) -> (r: &'static str)
    ensures
        r@ == if set {
            letter@
        } else {
            "-"@
        },
{
    if set {
        letter
    } else {
        "-"
    }
}

impl Registers {
    /// The register file on one line, flags as letters:
    /// `A:01 F:Z-HC BC:0013 DE:00D8 HL:014D SP:FFFE PC:0100`.
    pub open spec fn describe_spec(self) -> Seq<char> {
        "A:"@ + ascii_chars(seq![hex_digit(self.a / 16), hex_digit(self.a % 16)]) + " F:"@ + (
        if self.f.zero {
            "Z"@
        } else {
            "-"@
        }) + (if self.f.negative {
            "N"@
        } else {
            "-"@
        }) + (if self.f.half_carry {
            "H"@
        } else {
            "-"@
        }) + (if self.f.carry {
            "C"@
        } else {
            "-"@
        }) + " BC:"@ + ascii_chars(hex_word_digits(self.get16_spec(Reg16::BC))) + " DE:"@
            + ascii_chars(hex_word_digits(self.get16_spec(Reg16::DE))) + " HL:"@ + ascii_chars(
            hex_word_digits(self.get16_spec(Reg16::HL)),
        ) + " SP:"@ + ascii_chars(hex_word_digits(self.sp)) + " PC:"@ + ascii_chars(
            hex_word_digits(self.pc),
        )
    }

    pub fn describe(&self) -> (r: String)
        ensures
            r@ == self.describe_spec(),
    {
        let flags = String::from_str(flag_text(self.f.zero, "Z")).concat(
            flag_text(self.f.negative, "N"),
        ).concat(flag_text(self.f.half_carry, "H")).concat(flag_text(self.f.carry, "C"));
        let pairs = String::from_str(" BC:").concat(hex_word_text(self.get16(Reg16::BC)).as_str()).concat(
            " DE:",
        ).concat(hex_word_text(self.get16(Reg16::DE)).as_str()).concat(" HL:").concat(
            hex_word_text(self.get16(Reg16::HL)).as_str(),
        );
        String::from_str("A:").concat(hex_byte_text(self.a).as_str()).concat(" F:").concat(
            flags.as_str(),
        ).concat(pairs.as_str()).concat(" SP:").concat(hex_word_text(self.sp).as_str()).concat(
            " PC:",
        ).concat(hex_word_text(self.pc).as_str())
    }
}

} // verus!
