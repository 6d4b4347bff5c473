//! The ALU: flag behaviour of every arithmetic and bit operation.

use game_koi::cpu::alu;
use game_koi::cpu::registers::Flags;

#[test]
    fn add_sets_half_carry_at_nibble_boundary() {
        let (result, flags) = alu::add(0x0F, 0x01, false);
        assert_eq!(result, 0x10);
        assert!(flags.half_carry);
        assert!(!flags.carry);

        // No nibble overflow, so no H.
        let (_, flags) = alu::add(0x0E, 0x01, false);
        assert!(!flags.half_carry);
    }

#[test]
    fn add_wraps_and_sets_carry_and_zero() {
        let (result, flags) = alu::add(0xFF, 0x01, false);
        assert_eq!(result, 0x00);
        assert!(flags.zero && flags.carry && flags.half_carry);
        assert!(!flags.negative);
    }

#[test]
    fn adc_carry_in_can_trigger_both_carries() {
        // 0x0F + 0x00 + 1 overflows the low nibble on the carry alone.
        let (result, flags) = alu::add(0x0F, 0x00, true);
        assert_eq!(result, 0x10);
        assert!(flags.half_carry);

        let (result, flags) = alu::add(0xFF, 0xFF, true);
        assert_eq!(result, 0xFF);
        assert!(flags.carry && flags.half_carry);
    }

#[test]
    fn sub_sets_borrow_flags() {
        let (result, flags) = alu::sub(0x10, 0x01, false);
        assert_eq!(result, 0x0F);
        assert!(flags.half_carry, "borrow out of bit 4");
        assert!(!flags.carry);
        assert!(flags.negative);

        let (result, flags) = alu::sub(0x00, 0x01, false);
        assert_eq!(result, 0xFF);
        assert!(flags.carry && flags.half_carry);
    }

#[test]
    fn sbc_borrow_in_is_accounted_for() {
        let (result, flags) = alu::sub(0x00, 0x00, true);
        assert_eq!(result, 0xFF);
        assert!(flags.carry && flags.half_carry);
    }

#[test]
    fn inc_and_dec_preserve_carry() {
        let (_, flags) = alu::inc(0x00, true);
        assert!(flags.carry, "INC must not touch C");
        let (_, flags) = alu::dec(0x05, true);
        assert!(flags.carry, "DEC must not touch C");

        // But they do set H at the nibble boundary.
        let (result, flags) = alu::inc(0x0F, false);
        assert_eq!(result, 0x10);
        assert!(flags.half_carry);
        let (result, flags) = alu::dec(0x10, false);
        assert_eq!(result, 0x0F);
        assert!(flags.half_carry && flags.negative);
    }

#[test]
    fn and_always_sets_half_carry() {
        let (result, flags) = alu::and(0xF0, 0x0F);
        assert_eq!(result, 0x00);
        assert!(flags.zero && flags.half_carry);
        assert!(!flags.carry && !flags.negative);
    }

#[test]
    fn add16_flags_come_from_the_high_byte() {
        // Carry out of bit 11 sets H.
        let (result, flags) = alu::add16(0x0FFF, 0x0001, false);
        assert_eq!(result, 0x1000);
        assert!(flags.half_carry);
        assert!(!flags.carry);

        // A carry out of bit 7 must NOT set H: the flag comes from bit 11 only.
        // 0x00FF + 0x0001 overflows the low byte but not bit 11.
        let (result, flags) = alu::add16(0x00FF, 0x0001, false);
        assert_eq!(result, 0x0100);
        assert!(!flags.half_carry, "H comes from bit 11, not bit 7");

        // Likewise a high nibble that carries without the low byte doing so.
        let (_, flags) = alu::add16(0x0800, 0x0800, false);
        assert!(flags.half_carry);

        // Carry out of bit 15 sets C.
        let (result, flags) = alu::add16(0xFFFF, 0x0001, false);
        assert_eq!(result, 0x0000);
        assert!(flags.carry && flags.half_carry);

        // Z is passed through untouched, not recomputed from the result.
        let (_, flags) = alu::add16(0x0000, 0x0000, true);
        assert!(flags.zero, "ADD HL,rr must not touch Z");
    }

#[test]
    fn add_sp_uses_byte_sized_flags() {
        // Flags come from the low byte even though the result is 16-bit.
        let (result, flags) = alu::add_sp_offset(0x000F, 1);
        assert_eq!(result, 0x0010);
        assert!(flags.half_carry);
        assert!(!flags.carry);

        let (result, flags) = alu::add_sp_offset(0x00FF, 1);
        assert_eq!(result, 0x0100);
        assert!(flags.carry && flags.half_carry);

        // Z and N are always cleared, even when the result is zero.
        let (result, flags) = alu::add_sp_offset(0xFFFF, 1);
        assert_eq!(result, 0x0000);
        assert!(!flags.zero && !flags.negative);
    }

#[test]
    fn add_sp_handles_negative_offsets() {
        let (result, _) = alu::add_sp_offset(0x0100, -1);
        assert_eq!(result, 0x00FF);
        // Wrapping below zero is allowed and wraps around the 16-bit space.
        let (result, _) = alu::add_sp_offset(0x0000, -1);
        assert_eq!(result, 0xFFFF);
    }

#[test]
    fn daa_fixes_up_bcd_addition() {
        // 0x09 + 0x01 = 0x0A in binary; BCD wants 0x10.
        let (sum, flags) = alu::add(0x09, 0x01, false);
        assert_eq!(sum, 0x0A);
        let (adjusted, flags) = alu::daa(sum, flags);
        assert_eq!(adjusted, 0x10);
        assert!(!flags.carry && !flags.half_carry);

        // 0x99 + 0x01 = 0x9A -> 0x00 with a decimal carry out.
        let (sum, flags) = alu::add(0x99, 0x01, false);
        let (adjusted, flags) = alu::daa(sum, flags);
        assert_eq!(adjusted, 0x00);
        assert!(flags.zero && flags.carry);
    }

#[test]
    fn daa_fixes_up_bcd_subtraction() {
        // 0x10 - 0x01 = 0x0F in binary; BCD wants 0x09.
        let (diff, flags) = alu::sub(0x10, 0x01, false);
        assert_eq!(diff, 0x0F);
        let (adjusted, flags) = alu::daa(diff, flags);
        assert_eq!(adjusted, 0x09);
        assert!(flags.negative, "DAA preserves N");
        assert!(!flags.carry);
    }

#[test]
    fn daa_always_clears_half_carry() {
        for a in 0..=0xFFu8 {
            for &n in &[false, true] {
                for &h in &[false, true] {
                    for &c in &[false, true] {
                        let flags = Flags {
                            zero: false,
                            negative: n,
                            half_carry: h,
                            carry: c,
                        };
                        let (_, out) = alu::daa(a, flags);
                        assert!(!out.half_carry);
                        assert_eq!(out.negative, n);
                    }
                }
            }
        }
    }

#[test]
    fn rotates_through_carry_are_nine_bit() {
        // RL: carry-in becomes bit 0, bit 7 becomes the new carry.
        let (result, flags) = alu::rl(0x80, false);
        assert_eq!(result, 0x00);
        assert!(flags.carry && flags.zero);

        let (result, flags) = alu::rl(0x00, true);
        assert_eq!(result, 0x01);
        assert!(!flags.carry);

        // RLC wraps bit 7 straight back into bit 0 instead.
        let (result, flags) = alu::rlc(0x80);
        assert_eq!(result, 0x01);
        assert!(flags.carry);
    }

#[test]
    fn sra_preserves_the_sign_bit() {
        let (result, flags) = alu::sra(0x80);
        assert_eq!(result, 0xC0, "bit 7 is copied, not cleared");
        assert!(!flags.carry);

        // SRL zeroes it instead.
        let (result, _) = alu::srl(0x80);
        assert_eq!(result, 0x40);

        let (result, flags) = alu::sra(0x01);
        assert_eq!(result, 0x00);
        assert!(flags.carry && flags.zero);
    }

#[test]
    fn swap_exchanges_nibbles() {
        let (result, flags) = alu::swap(0xAB);
        assert_eq!(result, 0xBA);
        assert!(!flags.carry && !flags.zero);
        let (_, flags) = alu::swap(0x00);
        assert!(flags.zero);
    }

#[test]
    fn bit_sets_zero_to_the_complement() {
        let flags = alu::bit(0b0000_1000, 3, false);
        assert!(!flags.zero, "bit is set, so Z is clear");
        assert!(flags.half_carry);

        let flags = alu::bit(0b0000_1000, 2, true);
        assert!(flags.zero);
        assert!(flags.carry, "BIT preserves C");
    }

#[test]
    fn res_and_set_touch_one_bit() {
        assert_eq!(alu::res(0xFF, 0), 0xFE);
        assert_eq!(alu::res(0xFF, 7), 0x7F);
        assert_eq!(alu::set(0x00, 0), 0x01);
        assert_eq!(alu::set(0x00, 7), 0x80);
    }

#[test]
    fn cp_matches_sub_flags() {
        for a in (0..=0xFFu8).step_by(17) {
            for b in (0..=0xFFu8).step_by(17) {
                assert_eq!(alu::cp(a, b), alu::sub(a, b, false).1, "CP {a:#04X} {b:#04X}");
            }
        }
    }

#[test]
    fn daa_matches_decimal_arithmetic() {
        let bcd = |n: u8| ((n / 10) << 4) | (n % 10);

        for x in 0..100u8 {
            for y in 0..100u8 {
                // Addition.
                let (raw, flags) = alu::add(bcd(x), bcd(y), false);
                let (got, gf) = alu::daa(raw, flags);
                let expected = (x + y) % 100;
                assert_eq!(got, bcd(expected), "ADD {x}+{y}");
                assert_eq!(gf.carry, x + y >= 100, "ADD carry {x}+{y}");
                assert_eq!(gf.zero, got == 0, "ADD zero {x}+{y}");

                // Subtraction.
                let (raw, flags) = alu::sub(bcd(x), bcd(y), false);
                let (got, gf) = alu::daa(raw, flags);
                let expected = (x as i8 - y as i8).rem_euclid(100) as u8;
                assert_eq!(got, bcd(expected), "SUB {x}-{y}");
                assert_eq!(gf.carry, x < y, "SUB carry {x}-{y}");
            }
        }
    }
