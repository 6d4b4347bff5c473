//! MBC1: banking, the gap banks, RAM banking, and multicart wiring.

use game_koi::cartridge::header;
use game_koi::cartridge::mbc::mbc1::{is_multicart, Mbc1, MULTICART_GAME_BANKS};
use game_koi::cartridge::mbc::{OPEN_BUS, ROM_BANK_SIZE};

/// A ROM where every byte of bank N is N, so a read tells you which bank answered.
fn banked_rom(banks: usize) -> Vec<u8> {
    (0..banks)
        .flat_map(|bank| std::iter::repeat_n(bank as u8, ROM_BANK_SIZE))
        .collect()
}

fn mbc1(banks: usize, ram_bytes: usize) -> Mbc1 {
    Mbc1::new(banked_rom(banks), banks, ram_bytes)
}

/// Builds a 1 MiB image with a Nintendo logo at the start of `games` of the four
/// 256 KiB slots, which is what multicart detection looks for.
fn multicart_image(games: usize) -> Vec<u8> {
    let mut rom = banked_rom(64);
    for slot in 0..games {
        header::write_logo_at(&mut rom, slot * MULTICART_GAME_BANKS * 0x4000);
    }
    rom
}

#[test]
    fn mbc1_low_window_is_bank_zero_and_high_window_starts_at_one() {
        let mbc = mbc1(4, 0);
        assert_eq!(mbc.read_rom(0x0000), 0);
        assert_eq!(mbc.read_rom(0x3FFF), 0);
        // Power-on BANK1 is 1, not 0: bank 1 is visible before the game writes.
        assert_eq!(mbc.read_rom(0x4000), 1);
    }

#[test]
    fn mbc1_bank1_selects_the_high_window() {
        let mut mbc = mbc1(8, 0);
        mbc.write_rom(0x2000, 5);
        assert_eq!(mbc.read_rom(0x4000), 5);
        assert_eq!(mbc.read_rom(0x7FFF), 5);
        // The low window does not move with it.
        assert_eq!(mbc.read_rom(0x0000), 0);
    }

#[test]
    fn mbc1_bank_zero_becomes_bank_one() {
        let mut mbc = mbc1(8, 0);
        mbc.write_rom(0x2000, 0);
        // Not bank 0 — the register cannot hold zero.
        assert_eq!(mbc.read_rom(0x4000), 1);
    }

#[test]
    fn mbc1_bank2_supplies_the_upper_bank_bits() {
        // 128 banks = 2 MiB, the largest MBC1 cartridge.
        let mut mbc = mbc1(128, 0);
        mbc.write_rom(0x2000, 0x01);
        mbc.write_rom(0x4000, 0x02);
        // BANK2:BANK1 = 0b10_00001 = 0x41.
        assert_eq!(mbc.read_rom(0x4000), 0x41);
    }

#[test]
    fn mbc1_the_gap_banks_are_unreachable_in_the_high_window() {
        // The classic MBC1 quirk. BANK1 = 0 becomes 1 *before* BANK2 is prepended, so
        // asking for 0x20 yields 0x21 and bank 0x20 can never be selected here.
        let mut mbc = mbc1(128, 0);
        for (bank2, unreachable) in [(1, 0x20), (2, 0x40), (3, 0x60)] {
            mbc.write_rom(0x4000, bank2);
            mbc.write_rom(0x2000, 0);
            assert_eq!(
                mbc.read_rom(0x4000),
                unreachable + 1,
                "bank {unreachable:#04X} must not be selectable"
            );
        }
    }

#[test]
    fn mbc1_mode_one_banks_the_low_window_too() {
        let mut mbc = mbc1(128, 0);
        mbc.write_rom(0x4000, 0x02);

        // Mode 0: the low window is pinned to bank 0 regardless of BANK2.
        assert_eq!(mbc.read_rom(0x0000), 0);

        // Mode 1: it shows BANK2:00000 = 0x40 — how a big cart reaches the bottom of
        // each quarter, and the only way to see the gap banks at all.
        mbc.write_rom(0x6000, 1);
        assert_eq!(mbc.read_rom(0x0000), 0x40);
        // The high window is unaffected by the mode change.
        assert_eq!(mbc.read_rom(0x4000), 0x41);
    }

#[test]
    fn mbc1_ram_is_locked_until_the_magic_value_is_written() {
        let mut mbc = mbc1(4, 8 * 1024);

        // Locked at power-on: writes are dropped and reads float high.
        mbc.write_ram(0xA000, 0x42);
        assert_eq!(mbc.read_ram(0xA000), OPEN_BUS);

        mbc.write_rom(0x0000, 0x0A);
        mbc.write_ram(0xA000, 0x42);
        assert_eq!(mbc.read_ram(0xA000), 0x42);

        // Any low nibble other than 0xA locks it again; the data survives, hidden.
        mbc.write_rom(0x0000, 0x00);
        assert_eq!(mbc.read_ram(0xA000), OPEN_BUS);
        mbc.write_rom(0x0000, 0x1A);
        assert_eq!(mbc.read_ram(0xA000), 0x42, "only the low nibble is decoded");
    }

#[test]
    fn mbc1_ram_banking_needs_mode_one() {
        let mut mbc = mbc1(4, 32 * 1024);
        mbc.write_rom(0x0000, 0x0A);
        mbc.write_rom(0x6000, 1);

        for bank in 0..4u8 {
            mbc.write_rom(0x4000, bank);
            mbc.write_ram(0xA000, 0xB0 | bank);
        }
        for bank in 0..4u8 {
            mbc.write_rom(0x4000, bank);
            assert_eq!(
                mbc.read_ram(0xA000),
                0xB0 | bank,
                "bank {bank} kept its byte"
            );
        }

        // Back in mode 0, BANK2 addresses ROM instead and RAM is stuck on bank 0.
        mbc.write_rom(0x6000, 0);
        mbc.write_rom(0x4000, 3);
        assert_eq!(mbc.read_ram(0xA000), 0xB0);
    }

#[test]
    fn a_plain_cartridge_is_not_mistaken_for_a_multicart() {
        // One logo, in the ordinary place: an ordinary 1 MiB game.
        assert!(!is_multicart(&multicart_image(1)));
        // Two is still not enough — the reference wants most of the four slots.
        assert!(!is_multicart(&multicart_image(2)));
        // And a cart of the wrong size is never considered, whatever it contains.
        assert!(!is_multicart(&banked_rom(4)));
    }

#[test]
    fn three_logos_mark_a_multicart() {
        // Menu plus two games: the reference notes the fourth slot may be empty.
        assert!(is_multicart(&multicart_image(3)));
        assert!(is_multicart(&multicart_image(4)));
    }

#[test]
    fn a_multicart_skips_bit_four_of_bank1() {
        let mut mbc = Mbc1::new(multicart_image(4), 64, 0);
        assert!(
            mbc.multicart(),
            "test image should be detected as a multicart"
        );

        // Game 3, bank 0x1D within it. Bit 4 of BANK1 is not connected, so the 0x10 in
        // 0x1D is dropped and BANK2 lands at bit 4 instead of bit 5:
        // BANK2:BANK1<3:0> = 0b11_1101 = 0x3D. On a plain MBC1 the same writes would
        // select 0b11_11101 = 0x7D.
        mbc.write_rom(0x4000, 3);
        mbc.write_rom(0x2000, 0x1D);
        assert_eq!(mbc.read_rom(0x4000), 0x3D);

        // Mode 1 puts that game's own bank 0 in the low window — how the menu hands
        // control to a game that thinks it is alone on the cartridge.
        mbc.write_rom(0x6000, 1);
        assert_eq!(mbc.read_rom(0x0000), 0x30);
    }
