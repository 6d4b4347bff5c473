//! MBC3: seven-bit banking and the real-time clock.

use game_koi::cartridge::mbc::mbc3::{Mbc3, M_CYCLES_PER_SECOND};
use game_koi::cartridge::mbc::{OPEN_BUS, ROM_BANK_SIZE};

/// A ROM where every byte of bank N is N, so a read tells you which bank answered.
fn banked_rom(banks: usize) -> Vec<u8> {
    (0..banks)
        .flat_map(|bank| std::iter::repeat_n(bank as u8, ROM_BANK_SIZE))
        .collect()
}

fn mbc3(banks: usize, ram_bytes: usize) -> Mbc3 {
    let mut mbc = Mbc3::new(banked_rom(banks), banks, ram_bytes, true);
    // Open the enable latch; almost every test needs it.
    mbc.write_rom(0x0000, 0x0A);
    mbc
}

fn tick_seconds(mbc: &mut Mbc3, seconds: u32) {
    for _ in 0..seconds * M_CYCLES_PER_SECOND {
        mbc.tick();
    }
}

/// Latches the clock and reads one register, which is the only way a game can.
fn read_clock(mbc: &mut Mbc3, register: u8) -> u8 {
    mbc.write_rom(0x6000, 0x00);
    mbc.write_rom(0x6000, 0x01);
    mbc.write_rom(0x4000, register);
    mbc.read_ram(0xA000)
}

#[test]
    fn seven_bank_bits_and_no_gap() {
        let mut mbc = mbc3(128, 0);
        // 0x20 is a perfectly ordinary bank here, unlike on MBC1.
        mbc.write_rom(0x2000, 0x20);
        assert_eq!(mbc.read_rom(0x4000), 0x20);
        mbc.write_rom(0x2000, 0x7F);
        assert_eq!(mbc.read_rom(0x4000), 0x7F);
    }

#[test]
    fn mbc3_bank_zero_becomes_bank_one() {
        let mut mbc = mbc3(128, 0);
        mbc.write_rom(0x2000, 0);
        assert_eq!(mbc.read_rom(0x4000), 1);
        assert_eq!(mbc.read_rom(0x0000), 0);
    }

#[test]
    fn ram_banks_switch_without_a_mode_bit() {
        let mut mbc = mbc3(16, 32 * 1024);
        for bank in 0..4u8 {
            mbc.write_rom(0x4000, bank);
            mbc.write_ram(0xA000, 0xC0 | bank);
        }
        for bank in 0..4u8 {
            mbc.write_rom(0x4000, bank);
            assert_eq!(mbc.read_ram(0xA000), 0xC0 | bank);
        }
    }

#[test]
    fn the_clock_replaces_ram_in_the_window() {
        let mut mbc = mbc3(16, 32 * 1024);
        mbc.write_rom(0x4000, 0);
        mbc.write_ram(0xA000, 0x42);

        // Selecting 0x08 swaps the clock in; the RAM byte is hidden, not lost.
        tick_seconds(&mut mbc, 5);
        assert_eq!(read_clock(&mut mbc, 0x08), 5);

        mbc.write_rom(0x4000, 0);
        assert_eq!(mbc.read_ram(0xA000), 0x42);
    }

#[test]
    fn the_clock_counts_seconds() {
        let mut mbc = mbc3(16, 0);
        tick_seconds(&mut mbc, 59);
        assert_eq!(read_clock(&mut mbc, 0x08), 59);
        assert_eq!(read_clock(&mut mbc, 0x09), 0);

        // One more second rolls into minutes.
        tick_seconds(&mut mbc, 1);
        assert_eq!(read_clock(&mut mbc, 0x08), 0);
        assert_eq!(read_clock(&mut mbc, 0x09), 1);
    }

#[test]
    fn reads_show_the_latched_time_not_the_live_one() {
        let mut mbc = mbc3(16, 0);
        tick_seconds(&mut mbc, 3);

        // Latch, then let time pass without latching again.
        mbc.write_rom(0x6000, 0x00);
        mbc.write_rom(0x6000, 0x01);
        mbc.write_rom(0x4000, 0x08);
        tick_seconds(&mut mbc, 10);
        assert_eq!(mbc.read_ram(0xA000), 3, "the latch is frozen");

        // The clock behind it kept running the whole time.
        assert_eq!(read_clock(&mut mbc, 0x08), 13);
    }

#[test]
    fn latching_needs_the_full_zero_then_one_sequence() {
        let mut mbc = mbc3(16, 0);
        mbc.write_rom(0x4000, 0x08);
        tick_seconds(&mut mbc, 4);

        // A lone 0x01 does not latch.
        mbc.write_rom(0x6000, 0x01);
        assert_eq!(mbc.read_ram(0xA000), 0);

        // Nor does a sequence interrupted by another value.
        mbc.write_rom(0x6000, 0x00);
        mbc.write_rom(0x6000, 0xFF);
        mbc.write_rom(0x6000, 0x01);
        assert_eq!(mbc.read_ram(0xA000), 0);

        mbc.write_rom(0x6000, 0x00);
        mbc.write_rom(0x6000, 0x01);
        assert_eq!(mbc.read_ram(0xA000), 4);
    }

#[test]
    fn halting_stops_the_clock() {
        let mut mbc = mbc3(16, 0);
        mbc.write_rom(0x4000, 0x0C);
        mbc.write_ram(0xA000, 0x40); // DH bit 6: halt
        tick_seconds(&mut mbc, 30);
        assert_eq!(read_clock(&mut mbc, 0x08), 0, "a halted clock does not run");

        // Clearing it starts the crystal again.
        mbc.write_rom(0x4000, 0x0C);
        mbc.write_ram(0xA000, 0x00);
        tick_seconds(&mut mbc, 7);
        assert_eq!(read_clock(&mut mbc, 0x08), 7);
    }

#[test]
    fn writing_the_clock_sets_it() {
        let mut mbc = mbc3(16, 0);
        mbc.write_rom(0x4000, 0x0A);
        mbc.write_ram(0xA000, 23); // hours
        mbc.write_rom(0x4000, 0x09);
        mbc.write_ram(0xA000, 59); // minutes
        mbc.write_rom(0x4000, 0x08);
        mbc.write_ram(0xA000, 59); // seconds

        // One second later the whole thing rolls over into a new day.
        tick_seconds(&mut mbc, 1);
        assert_eq!(read_clock(&mut mbc, 0x08), 0);
        assert_eq!(read_clock(&mut mbc, 0x09), 0);
        assert_eq!(read_clock(&mut mbc, 0x0A), 0);
        assert_eq!(read_clock(&mut mbc, 0x0B), 1, "day counter advanced");
    }

#[test]
    fn the_day_counter_is_nine_bits_with_a_carry() {
        let mut mbc = mbc3(16, 0);

        // Set day 511, the last one the counter can hold, at 23:59:59.
        mbc.write_rom(0x4000, 0x0B);
        mbc.write_ram(0xA000, 0xFF);
        mbc.write_rom(0x4000, 0x0C);
        mbc.write_ram(0xA000, 0x01); // day bit 8
        mbc.write_rom(0x4000, 0x0A);
        mbc.write_ram(0xA000, 23);
        mbc.write_rom(0x4000, 0x09);
        mbc.write_ram(0xA000, 59);
        mbc.write_rom(0x4000, 0x08);
        mbc.write_ram(0xA000, 59);

        // DH reads back the day's high bit, with the unwired bits high.
        assert_eq!(read_clock(&mut mbc, 0x0C) & 0x01, 0x01);
        assert_eq!(read_clock(&mut mbc, 0x0C) & 0x80, 0x00, "carry not set yet");

        tick_seconds(&mut mbc, 1);
        assert_eq!(read_clock(&mut mbc, 0x0B), 0, "day counter wrapped");
        let dh = read_clock(&mut mbc, 0x0C);
        assert_eq!(dh & 0x01, 0x00);
        assert_eq!(dh & 0x80, 0x80, "the wrap set the carry");
    }

#[test]
    fn the_gate_covers_the_clock_too() {
        let mut mbc = mbc3(16, 0);
        tick_seconds(&mut mbc, 5);
        mbc.write_rom(0x6000, 0x00);
        mbc.write_rom(0x6000, 0x01);
        mbc.write_rom(0x4000, 0x08);

        mbc.write_rom(0x0000, 0x00); // shut the enable latch
        assert_eq!(mbc.read_ram(0xA000), OPEN_BUS);
        mbc.write_rom(0x0000, 0x0A);
        assert_eq!(mbc.read_ram(0xA000), 5);
    }

#[test]
    fn a_cartridge_without_a_crystal_has_no_clock() {
        let mut mbc = Mbc3::new(banked_rom(16), 16, 8 * 1024, false);
        mbc.write_rom(0x0000, 0x0A);
        mbc.write_rom(0x4000, 0x08);
        // Nothing answers in the clock's place.
        assert_eq!(mbc.read_ram(0xA000), OPEN_BUS);
        tick_seconds(&mut mbc, 5);
        assert_eq!(mbc.read_ram(0xA000), OPEN_BUS);
    }

#[test]
fn the_latch_only_moves_on_a_zero_then_one() {
    let mut mbc = mbc3(16, 0);
    tick_seconds(&mut mbc, 2);
    assert_eq!(read_clock(&mut mbc, 0x08), 2);
    // Writing 0x01 twice after a completed latch does not latch again.
    tick_seconds(&mut mbc, 1);
    mbc.write_rom(0x6000, 0x01);
    mbc.write_rom(0x4000, 0x08);
    assert_eq!(mbc.read_ram(0xA000), 2);
}
