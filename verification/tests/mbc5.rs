//! MBC5: nine-bit banking with bank 0 selectable, and the strict RAM gate.

use game_koi::cartridge::mbc::mbc5::Mbc5;
use game_koi::cartridge::mbc::{OPEN_BUS, ROM_BANK_SIZE};

/// A ROM where every byte of bank N is N, so a read tells you which bank answered.
fn banked_rom(banks: usize) -> Vec<u8> {
    (0..banks)
        .flat_map(|bank| std::iter::repeat_n(bank as u8, ROM_BANK_SIZE))
        .collect()
}

fn mbc5(banks: usize, ram_bytes: usize) -> Mbc5 {
    Mbc5::new(banked_rom(banks), banks, ram_bytes)
}

#[test]
    fn bank_zero_is_selectable() {
        // The headline difference from every earlier mapper.
        let mut mbc = mbc5(16, 0);
        mbc.write_rom(0x2000, 0);
        assert_eq!(mbc.rom_bank(), 0);
        assert_eq!(
            mbc.read_rom(0x4000),
            0,
            "bank 0 mirrored into the high window"
        );
    }

#[test]
    fn the_bank_number_spans_two_registers() {
        let mut mbc = mbc5(512, 0);

        // Low byte alone reaches bank 255.
        mbc.write_rom(0x2000, 0xFF);
        assert_eq!(mbc.rom_bank(), 0xFF);

        // The 0x3000 range adds bit 8, for banks 256-511.
        mbc.write_rom(0x3000, 0x01);
        assert_eq!(mbc.rom_bank(), 0x1FF);

        mbc.write_rom(0x2000, 0x00);
        assert_eq!(mbc.rom_bank(), 0x100);
    }

#[test]
    fn only_one_bit_of_the_high_register_is_wired() {
        let mut mbc = mbc5(512, 0);
        mbc.write_rom(0x2000, 0x00);
        mbc.write_rom(0x3000, 0xFE);
        assert_eq!(mbc.rom_bank(), 0x000, "bits 7-1 are ignored");
        mbc.write_rom(0x3000, 0xFF);
        assert_eq!(mbc.rom_bank(), 0x100, "only bit 0 reaches the bank number");
    }

#[test]
    fn the_ram_gate_compares_all_eight_bits() {
        let mut mbc = mbc5(16, 8 * 1024);

        // The value MBC1 would accept as an alias does nothing here.
        mbc.write_rom(0x0000, 0x1A);
        mbc.write_ram(0xA000, 0x42);
        assert_eq!(
            mbc.read_ram(0xA000),
            OPEN_BUS,
            "0x1A must not enable the RAM"
        );

        mbc.write_rom(0x0000, 0x0A);
        mbc.write_ram(0xA000, 0x42);
        assert_eq!(mbc.read_ram(0xA000), 0x42);
    }

#[test]
    fn ram_banks_switch_with_no_mode_bit() {
        // 128 KiB: 16 banks, the largest MBC5 RAM.
        let mut mbc = mbc5(16, 128 * 1024);
        mbc.write_rom(0x0000, 0x0A);

        for bank in 0..16u8 {
            mbc.write_rom(0x4000, bank);
            mbc.write_ram(0xA000, 0xD0 | bank);
        }
        for bank in 0..16u8 {
            mbc.write_rom(0x4000, bank);
            assert_eq!(
                mbc.read_ram(0xA000),
                0xD0 | bank,
                "bank {bank} kept its byte"
            );
        }
    }

#[test]
    fn nothing_above_5fff_is_a_register() {
        let mut mbc = mbc5(16, 0);
        mbc.write_rom(0x2000, 7);
        mbc.write_rom(0x6000, 0x01);
        mbc.write_rom(0x7FFF, 0xFF);
        assert_eq!(mbc.rom_bank(), 7, "no mode register to disturb the bank");
    }
