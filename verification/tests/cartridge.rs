//! Building a cartridge from an image.

use game_koi::cartridge::{Cartridge, LoadError};

#[test]
    fn reports_a_bad_header_with_the_path() {
        let Err(err) = Cartridge::from_bytes(vec![0u8; 64], "bad.gb") else {
            panic!("expected a header failure");
        };
        assert!(matches!(err, LoadError::Header { .. }));
        assert!(err.message().contains("bad.gb"));
    }

#[test]
fn a_good_image_keeps_its_bytes_and_path() {
    let mut rom = vec![0u8; 32 * 1024];
    game_koi::cartridge::header::write_logo_at(&mut rom, 0);
    rom[0x0147] = 0x01;
    let cart = match Cartridge::from_bytes(rom.clone(), "roms/game.gb") {
        Ok(cart) => cart,
        Err(e) => panic!("{}", e.message()),
    };
    assert_eq!(cart.rom(), &rom[..]);
    assert_eq!(cart.path(), "roms/game.gb");
    assert!(cart.create_mbc().is_ok());
}

#[test]
fn an_unsupported_mapper_is_named() {
    let mut rom = vec![0u8; 32 * 1024];
    game_koi::cartridge::header::write_logo_at(&mut rom, 0);
    rom[0x0147] = 0xFC; // pocket camera
    let cart = Cartridge::from_bytes(rom, "camera.gb").ok().unwrap();
    let err = cart.create_mbc().err().unwrap();
    assert_eq!(err.0, game_koi::cartridge::header::Mapper::PocketCamera);
}

#[test]
fn load_errors_read_as_sentences() {
    let err = LoadError::Io { path: "x.gb".to_string(), message: "No such file".to_string() };
    assert_eq!(err.message(), "could not read x.gb: No such file");
}
