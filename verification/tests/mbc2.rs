//! MBC2: A8 register decode and nibble-wide RAM.

use game_koi::cartridge::mbc::mbc2::Mbc2;
use game_koi::cartridge::mbc::{OPEN_BUS, ROM_BANK_SIZE};

/// A ROM where every byte of bank N is N, so a read tells you which bank answered.
fn banked_rom(banks: usize) -> Vec<u8> {
    (0..banks)
        .flat_map(|bank| std::iter::repeat_n(bank as u8, ROM_BANK_SIZE))
        .collect()
}

fn mbc2(banks: usize) -> Mbc2 {
    Mbc2::new(banked_rom(banks), banks, 0)
}

#[test]
    fn a8_picks_the_register() {
        let mut mbc = mbc2(16);

        // A8 clear: RAMG. The value 0x0A opens the enable latch and does not touch the bank.
        mbc.write_rom(0x0000, 0x0A);
        assert_eq!(mbc.read_rom(0x4000), 1, "bank unchanged by a RAMG write");
        mbc.write_ram(0xA000, 0x05);
        assert_eq!(mbc.read_ram(0xA000), 0xF5);

        // A8 set: ROMB. Same value, entirely different effect.
        mbc.write_rom(0x0100, 0x0A);
        assert_eq!(mbc.read_rom(0x4000), 0x0A);
    }

#[test]
    fn the_registers_repeat_every_256_bytes() {
        let mut mbc = mbc2(16);
        // 0x2100 and 0x3100 are ROMB just as much as 0x0100 is.
        mbc.write_rom(0x2100, 3);
        assert_eq!(mbc.read_rom(0x4000), 3);
        mbc.write_rom(0x3100, 7);
        assert_eq!(mbc.read_rom(0x4000), 7);

        // ...and 0x2000/0x3000 are RAMG, so they must shut the enable latch rather than bank.
        mbc.write_rom(0x0100, 5);
        mbc.write_rom(0x3000, 0x00);
        assert_eq!(mbc.read_rom(0x4000), 5, "a RAMG write left the bank alone");
        assert_eq!(mbc.read_ram(0xA000), OPEN_BUS);
    }

#[test]
    fn nothing_above_3fff_is_a_register() {
        let mut mbc = mbc2(16);
        mbc.write_rom(0x4100, 7);
        mbc.write_rom(0x6100, 7);
        assert_eq!(mbc.read_rom(0x4000), 1, "the bank register did not move");
    }

#[test]
    fn mbc2_bank_zero_becomes_bank_one() {
        let mut mbc = mbc2(16);
        mbc.write_rom(0x0100, 0);
        assert_eq!(mbc.read_rom(0x4000), 1);
        // The low window is bank 0 regardless.
        assert_eq!(mbc.read_rom(0x0000), 0);
    }

#[test]
    fn only_four_bank_bits_are_wired() {
        let mut mbc = mbc2(16);
        // 0x1F would be bank 31 on MBC1; MBC2 keeps only the low nibble.
        mbc.write_rom(0x0100, 0x1F);
        assert_eq!(mbc.read_rom(0x4000), 0x0F);
    }

#[test]
    fn ram_keeps_only_the_low_nibble() {
        let mut mbc = mbc2(16);
        mbc.write_rom(0x0000, 0x0A);

        mbc.write_ram(0xA000, 0xFF);
        // Low nibble stored, high nibble floating high — not the 0xFF we wrote back by
        // accident, but the same value for a different reason. Use a distinguishing
        // pattern to be sure:
        mbc.write_ram(0xA001, 0x37);
        assert_eq!(mbc.read_ram(0xA001), 0xF7);
    }

#[test]
    fn ram_wraps_every_512_bytes() {
        let mut mbc = mbc2(16);
        mbc.write_rom(0x0000, 0x0A);

        mbc.write_ram(0xA000, 0x03);
        // Only A0-A8 reach the chip, so 0xA200 is the same cell as 0xA000.
        assert_eq!(mbc.read_ram(0xA200), 0xF3);
        assert_eq!(mbc.read_ram(0xA400), 0xF3);
        // And so is the far end of the window.
        assert_eq!(mbc.read_ram(0xBE00), 0xF3);
    }

#[test]
    fn ram_is_shut_at_power_on() {
        let mut mbc = mbc2(16);
        mbc.write_ram(0xA000, 0x05);
        assert_eq!(mbc.read_ram(0xA000), OPEN_BUS);
    }
