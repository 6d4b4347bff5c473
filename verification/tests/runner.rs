//! Running a machine without a window, and the PGM image of its screen.

use game_koi::cartridge::header;
use game_koi::cartridge::Cartridge;
use game_koi::cpu::Cpu;
use game_koi::runner::{contains_bytes, pgm_image, run_frames, run_test_rom, test_passed, test_reported};
use game_koi::testbus::TestBus;

/// A 32 KiB plain cartridge whose entry point jumps to `program` at 0x0150.
fn cartridge(program: &[u8]) -> Cartridge {
    let mut rom = vec![0u8; 32 * 1024];
    header::write_logo_at(&mut rom, 0);
    rom[0x0100..0x0103].copy_from_slice(&[0xC3, 0x50, 0x01]); // JP 0x0150
    rom[0x0150..0x0150 + program.len()].copy_from_slice(program);
    Cartridge::from_bytes(rom, "runner.gb").ok().unwrap()
}

/// A program that sends `text` through the serial port and then spins.
fn reporter(text: &[u8]) -> Vec<u8> {
    let mut program = Vec::new();
    for &byte in text {
        // LD A,byte; LDH (01),A; LD A,0x81; LDH (02),A
        program.extend_from_slice(&[0x3E, byte, 0xE0, 0x01, 0x3E, 0x81, 0xE0, 0x02]);
    }
    program.extend_from_slice(&[0x18, 0xFE]); // JR -2
    program
}

#[test]
fn byte_search_finds_a_word_anywhere() {
    assert!(contains_bytes(b"Test Passed\n", b"Passed"));
    assert!(contains_bytes(b"Passed", b"Passed"));
    assert!(!contains_bytes(b"Passe", b"Passed"));
    assert!(!contains_bytes(b"pAssed", b"Passed"));
    assert!(contains_bytes(b"anything", b""));
    assert!(!contains_bytes(b"", b"x"));
}

#[test]
fn a_verdict_is_either_word() {
    assert!(test_passed(b"cpu_instrs\n\nPassed all tests\n"));
    assert!(!test_passed(b"01:ok 02:Failed"));
    assert!(test_reported(b"01:ok 02:Failed"));
    assert!(test_reported(b"Passed"));
    assert!(!test_reported(b"01:ok 02:ok"));
}

#[test]
fn a_test_rom_runs_until_it_reports() {
    let cart = cartridge(&reporter(b"Passed"));
    let mut bus = TestBus::new(&cart).unwrap();
    let mut cpu = Cpu::new();
    assert!(run_test_rom(&mut cpu, &mut bus, 1_000_000).is_ok());
    assert!(test_passed(bus.serial.output()));
    assert!(bus.cycles < 1_000_000, "stopped at the verdict, after {} cycles", bus.cycles);
}

#[test]
fn a_silent_test_rom_runs_to_the_limit() {
    let cart = cartridge(&[0x18, 0xFE]);
    let mut bus = TestBus::new(&cart).unwrap();
    let mut cpu = Cpu::new();
    assert!(run_test_rom(&mut cpu, &mut bus, 20_000).is_ok());
    assert!((20_000..20_006).contains(&bus.cycles), "{}", bus.cycles);
    assert!(bus.serial.output().is_empty());
}

#[test]
fn an_illegal_opcode_ends_a_test_run() {
    let cart = cartridge(&[0xDD]);
    let mut bus = TestBus::new(&cart).unwrap();
    let mut cpu = Cpu::new();
    let illegal = run_test_rom(&mut cpu, &mut bus, 20_000).err().unwrap();
    assert_eq!(illegal.opcode, 0xDD);
}

#[test]
fn an_illegal_opcode_ends_a_screenshot_run() {
    let cart = cartridge(&[0xDD]);
    let mut bus = TestBus::new(&cart).unwrap();
    let mut cpu = Cpu::new();
    let (drawn, illegal) = run_frames(&mut cpu, &mut bus, 3, 3 * 70_224 * 4);
    assert_eq!(drawn, 0);
    assert_eq!(illegal.unwrap().opcode, 0xDD);
}

#[test]
fn a_run_already_past_its_limit_does_nothing() {
    let cart = cartridge(&[0x18, 0xFE]);
    let mut bus = TestBus::new(&cart).unwrap();
    let mut cpu = Cpu::new();
    assert!(run_test_rom(&mut cpu, &mut bus, 0).is_ok());
    assert_eq!(bus.cycles, 0);
    assert_eq!(cpu.regs.pc, 0x0100);
}

#[test]
fn frames_are_counted_as_they_complete() {
    let cart = cartridge(&[0x18, 0xFE]);
    let mut bus = TestBus::new(&cart).unwrap();
    let mut cpu = Cpu::new();
    assert_eq!(run_frames(&mut cpu, &mut bus, 3, 3 * 70_224 * 4), (3, None));
    assert!(!bus.ppu.frame_ready);
    // The first frame ends on entering VBlank, 144 lines of 114 M-cycles after
    // power-on; each later one a whole frame of 17556 after that, give or take the
    // instruction in flight.
    let expected = 144 * 114 + 2 * 17_556;
    assert!((expected..expected + 3).contains(&bus.cycles), "{}", bus.cycles);
}

#[test]
fn a_tight_budget_cuts_the_run_short() {
    let cart = cartridge(&[0x18, 0xFE]);
    let mut bus = TestBus::new(&cart).unwrap();
    let mut cpu = Cpu::new();
    assert_eq!(run_frames(&mut cpu, &mut bus, 5, 20_000), (1, None));
    assert!((20_000..20_006).contains(&bus.cycles), "{}", bus.cycles);
}

#[test]
fn the_screen_is_written_as_a_plain_pgm() {
    let mut framebuffer = [0u8; 23040];
    framebuffer[0] = 3;
    framebuffer[1] = 1;
    framebuffer[159] = 2;
    framebuffer[160] = 3;
    let image = pgm_image(&framebuffer);
    let text = String::from_utf8(image).unwrap();
    let mut lines = text.lines();
    assert_eq!(lines.next(), Some("P2"));
    assert_eq!(lines.next(), Some("160 144"));
    assert_eq!(lines.next(), Some("3"));
    let first = lines.next().unwrap();
    assert_eq!(first.split(' ').count(), 160);
    assert!(first.starts_with("0 2 3 3"));
    assert!(first.ends_with(" 1"));
    assert!(lines.next().unwrap().starts_with("0 3 3"));
    assert_eq!(text.lines().count(), 3 + 144);
    assert!(text.ends_with("3\n"));
}

#[test]
fn no_frames_asked_for_means_no_run() {
    let cart = cartridge(&[0x18, 0xFE]);
    let mut bus = TestBus::new(&cart).unwrap();
    let mut cpu = Cpu::new();
    assert_eq!(run_frames(&mut cpu, &mut bus, 0, 1_000_000), (0, None));
    assert_eq!(bus.cycles, 0);
    assert_eq!(run_frames(&mut cpu, &mut bus, 3, 0), (0, None));
    assert_eq!(bus.cycles, 0);
}
