//! The emulated Game Boy, and nothing else.
//!
//! Everything here is the machine itself: the SM83 core, the bus that decodes its
//! address space, and the chips hanging off that bus. There is deliberately no I/O —
//! no window, no sound device, no filesystem — because the machine had none of those
//! either. A frontend drives this crate by stepping the CPU and reading the results
//! out.
pub mod text;
pub mod interrupts;
pub mod bus;
pub mod cpu;
pub mod timer;
pub mod joypad;
pub mod serial;
pub mod ppu;
pub mod cartridge;
pub mod testbus;
pub mod emulator;
pub mod pacing;
pub mod runner;
pub mod save;
pub mod apu;
pub mod crt;
pub mod stats;
pub mod input;
pub mod display;
