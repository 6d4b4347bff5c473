//! The cartridge header: parsing, validation, and the decoded fields.

use game_koi::cartridge::header::{
    compute_global_checksum, compute_header_checksum, decode_ram_size, decode_rom_size,
    CartridgeType, Header, HeaderError, Mapper, NINTENDO_LOGO,
};
use game_koi::cartridge::offset;

/// Builds a synthetic ROM: 32 KiB, valid logo, with the header checksum
/// fixed up so it verifies.
fn test_rom() -> Vec<u8> {
    let mut rom = vec![0u8; 32 * 1024];
    rom[offset::LOGO..offset::LOGO + NINTENDO_LOGO.len()].copy_from_slice(&NINTENDO_LOGO);
    rom[offset::TITLE..offset::TITLE + 6].copy_from_slice(b"TETRIS");
    rom[offset::CARTRIDGE_TYPE] = 0x00;
    rom[offset::ROM_SIZE] = 0x00;
    rom[offset::RAM_SIZE] = 0x00;
    rom[offset::OLD_LICENSEE] = 0x01;
    fix_checksums(&mut rom);
    rom
}

fn fix_checksums(rom: &mut [u8]) {
    rom[offset::HEADER_CHECKSUM] = compute_header_checksum(rom);
    let global = compute_global_checksum(rom).to_be_bytes();
    rom[offset::GLOBAL_CHECKSUM] = global[0];
    rom[offset::GLOBAL_CHECKSUM + 1] = global[1];
}

#[test]
    fn parses_a_minimal_rom() {
        let header = Header::parse(&test_rom()).unwrap();
        assert_eq!(header.title, "TETRIS");
        assert_eq!(header.cartridge_type.mapper, Mapper::NoMbc);
        assert_eq!(header.rom_size, 32 * 1024);
        assert_eq!(header.rom_banks(), 2);
        assert_eq!(header.ram_size, 0);
        assert_eq!(header.licensee, "01");
        assert!(header.header_checksum_valid);
        assert!(header.global_checksum_valid);
    }

#[test]
    fn rejects_short_files() {
        assert_eq!(
            Header::parse(&[0u8; 16]).unwrap_err(),
            HeaderError::TooShort { len: 16 }
        );
    }

#[test]
    fn rejects_a_corrupt_logo() {
        let mut rom = test_rom();
        rom[offset::LOGO] ^= 0xFF;
        assert_eq!(Header::parse(&rom).unwrap_err(), HeaderError::BadLogo);
    }

#[test]
    fn rejects_unknown_cartridge_type() {
        let mut rom = test_rom();
        rom[offset::CARTRIDGE_TYPE] = 0x04;
        fix_checksums(&mut rom);
        assert_eq!(
            Header::parse(&rom).unwrap_err(),
            HeaderError::UnknownCartridgeType(0x04)
        );
    }

#[test]
    fn rejects_size_mismatch() {
        let mut rom = test_rom();
        // Claim 64 KiB while the file stays 32 KiB.
        rom[offset::ROM_SIZE] = 0x01;
        fix_checksums(&mut rom);
        assert_eq!(
            Header::parse(&rom).unwrap_err(),
            HeaderError::RomSizeMismatch {
                declared: 64 * 1024,
                actual: 32 * 1024,
            }
        );
    }

#[test]
    fn reports_bad_header_checksum_without_failing() {
        let mut rom = test_rom();
        rom[offset::HEADER_CHECKSUM] = rom[offset::HEADER_CHECKSUM].wrapping_add(1);
        let header = Header::parse(&rom).unwrap();
        assert!(!header.header_checksum_valid);
    }

#[test]
    fn header_checksum_matches_known_value() {
        // Worked by hand from the boot ROM's algorithm: with every byte in
        // 0x0134-0x014C zero, the result is -(0x19 bytes) = 0x100 - 0x19.
        let mut rom = vec![0u8; 32 * 1024];
        rom[offset::LOGO..offset::LOGO + NINTENDO_LOGO.len()].copy_from_slice(&NINTENDO_LOGO);
        assert_eq!(compute_header_checksum(&rom), 0u8.wrapping_sub(0x19));
    }

#[test]
    fn decodes_rom_sizes() {
        assert_eq!(decode_rom_size(0x00), Some(32 * 1024));
        assert_eq!(decode_rom_size(0x01), Some(64 * 1024));
        assert_eq!(decode_rom_size(0x08), Some(8 * 1024 * 1024));
        assert_eq!(decode_rom_size(0x09), None);
    }

#[test]
    fn decodes_ram_sizes() {
        assert_eq!(decode_ram_size(0x00, Mapper::NoMbc), Some(0));
        assert_eq!(decode_ram_size(0x02, Mapper::Mbc1), Some(8 * 1024));
        // Note 0x05 is 64 KiB and 0x04 is 128 KiB — the codes are not in order.
        assert_eq!(decode_ram_size(0x04, Mapper::Mbc1), Some(128 * 1024));
        assert_eq!(decode_ram_size(0x05, Mapper::Mbc1), Some(64 * 1024));
        assert_eq!(decode_ram_size(0x06, Mapper::Mbc1), None);
        // MBC2's RAM is internal and not described by this field.
        assert_eq!(decode_ram_size(0x00, Mapper::Mbc2), Some(512));
    }

#[test]
    fn decodes_cartridge_type_flags() {
        let t = CartridgeType::from_byte(0x1B).unwrap();
        assert_eq!(t.mapper, Mapper::Mbc5);
        assert!(t.has_ram && t.has_battery);
        assert!(!t.has_rumble);

        let t = CartridgeType::from_byte(0x10).unwrap();
        assert_eq!(t.mapper, Mapper::Mbc3);
        assert!(t.has_timer && t.has_battery && t.has_ram);
    }

#[test]
    fn stops_title_at_binary_padding() {
        let mut rom = test_rom();
        // Emulate a later cartridge that put a CGB flag right after a short title.
        rom[offset::TITLE + 6] = 0x80;
        fix_checksums(&mut rom);
        assert_eq!(Header::parse(&rom).unwrap().title, "TETRIS");
    }

#[test]
    fn prefers_new_licensee_code() {
        let mut rom = test_rom();
        rom[offset::OLD_LICENSEE] = 0x33;
        rom[offset::NEW_LICENSEE] = b'0';
        rom[offset::NEW_LICENSEE + 1] = b'1';
        fix_checksums(&mut rom);
        assert_eq!(Header::parse(&rom).unwrap().licensee, "01");
    }

#[test]
fn rejects_unknown_rom_and_ram_sizes() {
    let mut rom = test_rom();
    rom[offset::ROM_SIZE] = 0x09;
    fix_checksums(&mut rom);
    assert_eq!(Header::parse(&rom).unwrap_err(), HeaderError::UnknownRomSize(0x09));

    let mut rom = test_rom();
    rom[offset::RAM_SIZE] = 0x06;
    fix_checksums(&mut rom);
    assert_eq!(Header::parse(&rom).unwrap_err(), HeaderError::UnknownRamSize(0x06));
}

#[test]
fn error_messages_name_the_problem() {
    assert_eq!(
        HeaderError::TooShort { len: 16 }.message(),
        "file is 16 bytes, too short to contain a cartridge header (need at least 0x0150)"
    );
    assert_eq!(
        HeaderError::UnknownCartridgeType(0x04).message(),
        "unknown cartridge type 0x04 at 0x0147"
    );
    assert_eq!(HeaderError::UnknownRomSize(0xAB).message(), "unknown ROM size 0xAB at 0x0148");
    assert_eq!(
        HeaderError::RomSizeMismatch { declared: 65536, actual: 32768 }.message(),
        "header declares 65536 bytes of ROM but the file is 32768 bytes"
    );
}

#[test]
fn parses_the_remaining_fields() {
    let mut rom = test_rom();
    rom[offset::SGB_FLAG] = 0x03;
    rom[offset::DESTINATION] = 0x00;
    rom[offset::VERSION] = 0x02;
    rom[offset::RAM_SIZE] = 0x03;
    rom[offset::CARTRIDGE_TYPE] = 0x03;
    rom[offset::TITLE + 6] = b' ';
    rom[offset::TITLE + 7] = b' ';
    fix_checksums(&mut rom);
    let header = Header::parse(&rom).unwrap();
    assert!(header.sgb_support);
    assert!(header.japanese);
    assert_eq!(header.version, 2);
    assert_eq!(header.ram_size, 32 * 1024);
    assert_eq!(header.ram_banks(), 4);
    assert_eq!(header.title, "TETRIS", "trailing spaces are trimmed");
    assert_eq!(header.cartridge_type.mapper, Mapper::Mbc1);
    assert!(header.cartridge_type.has_battery);
}

#[test]
fn a_licensee_code_that_is_not_printable_falls_back_to_hex() {
    let mut rom = test_rom();
    rom[offset::OLD_LICENSEE] = 0x33;
    rom[offset::NEW_LICENSEE] = b' ';
    rom[offset::NEW_LICENSEE + 1] = b'1';
    fix_checksums(&mut rom);
    assert_eq!(Header::parse(&rom).unwrap().licensee, "33");
}

#[test]
fn a_stamped_logo_is_found_where_it_was_stamped() {
    let mut rom = vec![0u8; 0x8000];
    assert!(!game_koi::cartridge::header::has_logo_at(&rom, 0x4000));
    game_koi::cartridge::header::write_logo_at(&mut rom, 0x4000);
    assert!(game_koi::cartridge::header::has_logo_at(&rom, 0x4000));
    assert!(!game_koi::cartridge::header::has_logo_at(&rom, 0));
}

#[test]
fn the_summary_lists_every_field() {
    let header = Header::parse(&test_rom()).unwrap();
    assert_eq!(
        header.describe(),
        "Title:     TETRIS\n\
         Licensee:  01\n\
         Version:   0\n\
         Mapper:    None\n\
         ROM:       32 KiB (2 banks)\n\
         RAM:       none\n\
         Region:    Japan\n\
         Checksums: header ok, global ok\n"
    );
}

#[test]
fn the_summary_names_battery_ram_and_bad_checksums() {
    let mut rom = test_rom();
    rom[offset::TITLE..offset::TITLE + 16].copy_from_slice(&[0; 16]);
    rom[offset::CARTRIDGE_TYPE] = 0x03; // MBC1+RAM+BATTERY
    rom[offset::RAM_SIZE] = 0x03; // 32 KiB
    rom[0x014A] = 0x01; // overseas
    fix_checksums(&mut rom);
    rom[offset::HEADER_CHECKSUM] ^= 0xFF;
    let header = Header::parse(&rom).unwrap();
    let text = header.describe();
    assert!(text.starts_with("Title:     <untitled>\n"), "{text}");
    assert!(text.contains("Mapper:    Mbc1\n"), "{text}");
    assert!(text.contains("RAM:       32 KiB (4 banks), battery-backed\n"), "{text}");
    assert!(text.contains("Region:    non-Japan\n"), "{text}");
    assert!(text.ends_with("Checksums: header BAD, global BAD\n"), "{text}");
}
