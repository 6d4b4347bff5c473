//! The whole bus: address decoding, and the CPU running a program on a cartridge.

use game_koi::bus::Bus;
use game_koi::cartridge::header;
use game_koi::cartridge::Cartridge;
use game_koi::cpu::Cpu;
use game_koi::testbus::TestBus;

/// A 32 KiB plain cartridge whose entry point jumps to `program` at 0x0150, past
/// the header.
fn cartridge(program: &[u8]) -> Cartridge {
    let mut rom = vec![0u8; 32 * 1024];
    header::write_logo_at(&mut rom, 0);
    rom[0x0100..0x0103].copy_from_slice(&[0xC3, 0x50, 0x01]); // JP 0x0150
    rom[0x0150..0x0150 + program.len()].copy_from_slice(program);
    Cartridge::from_bytes(rom, "program.gb").ok().unwrap()
}

#[test]
fn work_ram_reads_back_what_was_written() {
    let cart = cartridge(&[]);
    let mut bus = TestBus::new(&cart).unwrap();
    bus.write(0xC123, 0x42);
    bus.write(0xFF80, 0x24);
    assert_eq!(bus.read(0xC123), 0x42);
    assert_eq!(bus.read(0xFF80), 0x24);
    assert_eq!(bus.read(0xC124), 0x00, "a neighbour is untouched");
}

#[test]
fn rom_is_read_only_through_the_bus() {
    let cart = cartridge(&[0xAA]);
    let mut bus = TestBus::new(&cart).unwrap();
    bus.write(0x0150, 0x55);
    assert_eq!(bus.read(0x0150), 0xAA);
}

#[test]
fn the_registers_are_decoded_to_their_devices() {
    let cart = cartridge(&[]);
    let mut bus = TestBus::new(&cart).unwrap();
    bus.write(0xFFFF, 0x1F);
    assert_eq!(bus.read(0xFFFF), 0x1F, "IE");
    bus.write(0xFF0F, 0x01);
    assert_eq!(bus.read(0xFF0F), 0xE1, "IF reads its unused bits high");
    assert_eq!(bus.read(0xFF44), 0, "LY starts at the top");
    bus.write(0xFF00, 0x20);
    assert_eq!(bus.read(0xFF00) & 0x0F, 0x0F, "no buttons held");
}

#[test]
fn a_program_reports_through_the_serial_port() {
    // LD A,'K'; LDH (01),A; LD A,0x81; LDH (02),A; JR -2
    let cart = cartridge(&[0x3E, b'K', 0xE0, 0x01, 0x3E, 0x81, 0xE0, 0x02, 0x18, 0xFE]);
    let mut bus = TestBus::new(&cart).unwrap();
    let mut cpu = Cpu::new();
    for _ in 0..11 {
        assert!(cpu.step(&mut bus).is_ok());
    }
    assert_eq!(bus.serial.output_text(), "K");
    assert!(bus.cycles > 0);
}

#[test]
fn the_ppu_runs_with_the_bus_clock() {
    let cart = cartridge(&[0x18, 0xFE]); // JR -2 forever
    let mut bus = TestBus::new(&cart).unwrap();
    let mut cpu = Cpu::new();
    while !bus.ppu.frame_ready {
        let _ = cpu.step(&mut bus);
    }
    assert_eq!(bus.ppu.ly(), 144, "a frame completes on entering VBlank");
}

#[test]
fn the_sound_registers_reach_the_apu() {
    let cart = cartridge(&[]);
    let mut bus = TestBus::new(&cart).unwrap();
    assert_eq!(bus.read(0xFF26), 0x70, "the APU starts powered off");
    bus.write(0xFF26, 0x80);
    assert_eq!(bus.read(0xFF26), 0xF0);
    bus.write(0xFF24, 0x77);
    assert_eq!(bus.read(0xFF24), 0x77);
    bus.write(0xFF3F, 0x9C);
    assert_eq!(bus.read(0xFF3F), 0x9C, "wave RAM");
}

#[test]
fn the_apu_sequencer_follows_the_timer() {
    let cart = cartridge(&[]);
    let mut bus = TestBus::new(&cart).unwrap();
    let start = bus.apu.sequencer_step;
    // DIV bit 4 falls once every 2048 M-cycles.
    for _ in 0..4096 {
        bus.tick();
    }
    assert_eq!(bus.apu.sequencer_step, (start + 2) % 8);
}
