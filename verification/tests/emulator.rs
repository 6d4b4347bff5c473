//! The machine behind one handle: building it, running frames, reading the picture and
//! pressing buttons by name.

use game_koi::bus::Bus;
use game_koi::cartridge::header;
use game_koi::cartridge::header::{HeaderError, Mapper};
use game_koi::cartridge::LoadError;
use game_koi::display::PALETTE;
use game_koi::emulator::{parse_button, Emulator, StartError, RGBA_LEN};
use game_koi::joypad::Button;

/// A 32 KiB ROM whose entry point jumps to `program` at 0x0150.
fn rom(program: &[u8]) -> Vec<u8> {
    let mut rom = vec![0u8; 32 * 1024];
    header::write_logo_at(&mut rom, 0);
    rom[0x0100..0x0103].copy_from_slice(&[0xC3, 0x50, 0x01]); // JP 0x0150
    rom[0x0150..0x0150 + program.len()].copy_from_slice(program);
    rom
}

#[test]
fn buttons_are_named_as_the_page_names_them() {
    assert_eq!(parse_button("right"), Some(Button::Right));
    assert_eq!(parse_button("left"), Some(Button::Left));
    assert_eq!(parse_button("up"), Some(Button::Up));
    assert_eq!(parse_button("down"), Some(Button::Down));
    assert_eq!(parse_button("a"), Some(Button::A));
    assert_eq!(parse_button("b"), Some(Button::B));
    assert_eq!(parse_button("select"), Some(Button::Select));
    assert_eq!(parse_button("start"), Some(Button::Start));
}

#[test]
fn unknown_button_names_are_nothing() {
    assert_eq!(parse_button(""), None);
    assert_eq!(parse_button("A"), None, "names are lower case");
    assert_eq!(parse_button("starts"), None);
    assert_eq!(parse_button("dpad-up"), None);
}

#[test]
fn a_rom_without_a_header_is_refused() {
    match Emulator::new(vec![0u8; 64]) {
        Err(StartError::Load(LoadError::Header { source, .. })) => {
            assert_eq!(source, HeaderError::TooShort { len: 64 });
        }
        _ => panic!("expected a header failure"),
    }
}

#[test]
fn an_unemulated_board_is_refused() {
    let mut image = rom(&[]);
    image[0x0147] = 0x20; // MBC6
    match Emulator::new(image) {
        Err(StartError::Unsupported(unsupported)) => assert_eq!(unsupported.0, Mapper::Mbc6),
        _ => panic!("expected an unsupported mapper"),
    }
}

#[test]
fn a_frame_comes_back_as_rgba() {
    let mut emu = Emulator::new(rom(&[0x18, 0xFE])).ok().unwrap(); // JR -2 forever
    assert_eq!(emu.frame_len(), RGBA_LEN);
    assert_eq!(Emulator::width() * Emulator::height() * 4, RGBA_LEN);
    assert!(emu.frame().iter().all(|&b| b == 0), "black before the first frame");

    assert!(emu.run_frame().is_ok());
    assert!(!emu.bus.ppu.frame_ready, "the frame was taken");
    // Blank VRAM draws colour 0 everywhere, which the boot palette maps to shade 0.
    let frame = emu.frame();
    for pixel in frame.chunks(4) {
        assert_eq!(pixel, &PALETTE[0][..]);
    }
}

#[test]
fn successive_frames_each_take_a_frame_of_cycles() {
    let mut emu = Emulator::new(rom(&[0x18, 0xFE])).ok().unwrap();
    assert!(emu.run_frame().is_ok());
    let first = emu.bus.cycles;
    assert!(emu.run_frame().is_ok());
    // 70224 T-cycles, give or take the instruction that straddles the boundary.
    let elapsed = emu.bus.cycles - first;
    assert!((17_550..=17_562).contains(&elapsed), "took {elapsed} M-cycles");
}

#[test]
fn an_illegal_opcode_stops_the_frame() {
    let mut emu = Emulator::new(rom(&[0xD3])).ok().unwrap();
    let illegal = emu.run_frame().err().unwrap();
    assert_eq!(illegal.opcode, 0xD3);
    assert_eq!(illegal.address, 0x0150);
    assert_eq!(emu.cpu.regs.pc, 0x0151, "the CPU is left just past it");
}

#[test]
fn pressing_a_named_button_reaches_the_joypad() {
    let mut emu = Emulator::new(rom(&[])).ok().unwrap();
    emu.bus.write(0xFF00, 0x10); // select the action buttons
    assert_eq!(emu.bus.read(0xFF00) & 0x0F, 0x0F, "nothing held");

    emu.press("a");
    assert_eq!(emu.bus.read(0xFF00) & 0x01, 0, "A reads low while held");
    assert_eq!(emu.bus.interrupts.requested & 0x10, 0x10, "the joypad interrupt was raised");

    emu.release("a");
    assert_eq!(emu.bus.read(0xFF00) & 0x01, 0x01);

    emu.press("turbo");
    assert_eq!(emu.bus.joypad.pressed, 0, "an unknown name presses nothing");
}
