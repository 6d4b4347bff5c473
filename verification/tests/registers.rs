//! The register file: pairs, flags, and the post-boot state.

use game_koi::cpu::registers::{Flags, Reg16, Registers};

#[test]
    fn pairs_are_big_endian() {
        let mut regs = Registers::default();
        regs.set16(Reg16::HL, 0x1234);
        assert_eq!(regs.h, 0x12);
        assert_eq!(regs.l, 0x34);
        assert_eq!(regs.get16(Reg16::HL), 0x1234);
    }

#[test]
    fn low_nibble_of_f_is_always_zero() {
        let mut regs = Registers::default();
        // Simulate POP AF with every bit set.
        regs.set16(Reg16::AF, 0xFFFF);
        assert_eq!(regs.a, 0xFF);
        assert_eq!(regs.f.bits(), 0xF0);
        assert_eq!(regs.get16(Reg16::AF), 0xFFF0);
    }

#[test]
    fn flags_round_trip() {
        for bits in 0..=0xFu8 {
            let raw = bits << 4;
            assert_eq!(Flags::from_bits(raw).bits(), raw);
        }
    }

#[test]
    fn post_boot_state_matches_dmg() {
        let regs = Registers::post_boot_dmg();
        assert_eq!(regs.get16(Reg16::AF), 0x01B0);
        assert_eq!(regs.get16(Reg16::BC), 0x0013);
        assert_eq!(regs.get16(Reg16::DE), 0x00D8);
        assert_eq!(regs.get16(Reg16::HL), 0x014D);
        assert_eq!(regs.pc, 0x0100);
        assert_eq!(regs.sp, 0xFFFE);
    }

#[test]
fn the_register_line_shows_flags_as_letters() {
    let regs = Registers::post_boot_dmg();
    assert_eq!(
        regs.describe(),
        "A:01 F:Z-HC BC:0013 DE:00D8 HL:014D SP:FFFE PC:0100"
    );
    let mut regs = Registers::post_boot_dmg();
    regs.f = Flags::from_bits(0x40);
    regs.a = 0xAB;
    regs.pc = 0xC0DE;
    assert_eq!(
        regs.describe(),
        "A:AB F:-N-- BC:0013 DE:00D8 HL:014D SP:FFFE PC:C0DE"
    );
}
