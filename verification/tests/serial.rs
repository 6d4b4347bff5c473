//! The serial port: transfers, timing, and the captured output.

use game_koi::interrupts::{Interrupt, InterruptState};
use game_koi::serial::{Serial, M_CYCLES_PER_BIT};

fn interrupts() -> InterruptState {
    InterruptState {
        enabled: 0xFF,
        ..Default::default()
    }
}

fn transmit(serial: &mut Serial, byte: u8) {
    serial.write(0xFF01, byte);
    serial.write(0xFF02, 0x81);
}

fn tick_n(serial: &mut Serial, ints: &mut InterruptState, n: u32) {
    for _ in 0..n {
        serial.tick(ints);
    }
}

#[test]
    fn captures_written_bytes() {
        let mut serial = Serial::new();
        let mut ints = interrupts();
        for byte in b"Hi" {
            transmit(&mut serial, *byte);
            tick_n(&mut serial, &mut ints, M_CYCLES_PER_BIT * 8);
        }
        assert_eq!(serial.output(), b"Hi");
        assert_eq!(serial.output_text(), "Hi");
    }

#[test]
    fn capture_happens_at_transfer_start() {
        // The byte is recorded when the transfer begins, because SB is destroyed by
        // the shifting before the transfer ends.
        let mut serial = Serial::new();
        let mut ints = interrupts();
        transmit(&mut serial, b'A');
        assert_eq!(serial.output(), b"A", "captured immediately");

        tick_n(&mut serial, &mut ints, M_CYCLES_PER_BIT * 8);
        assert_eq!(serial.read(0xFF01), 0xFF, "SB shifted full of ones");
        assert_eq!(serial.output(), b"A", "but the captured byte survives");
    }

#[test]
    fn transfer_takes_eight_bit_periods() {
        let mut serial = Serial::new();
        let mut ints = interrupts();
        transmit(&mut serial, 0x00);

        tick_n(&mut serial, &mut ints, M_CYCLES_PER_BIT * 8 - 1);
        assert!(!ints.any_pending(), "not finished yet");
        assert_eq!(serial.read(0xFF02) & 0x80, 0x80, "still transferring");

        tick_n(&mut serial, &mut ints, 1);
        assert_eq!(ints.pending(), Some(Interrupt::Serial));
        assert_eq!(
            serial.read(0xFF02) & 0x80,
            0,
            "enable bit cleared by hardware"
        );
    }

#[test]
    fn external_clock_transfers_never_complete() {
        // SC bit 0 clear means the peer supplies the clock. With nothing plugged in,
        // the transfer hangs forever — which is what real hardware does.
        let mut serial = Serial::new();
        let mut ints = interrupts();
        serial.write(0xFF01, b'X');
        serial.write(0xFF02, 0x80); // enable, external clock

        tick_n(&mut serial, &mut ints, M_CYCLES_PER_BIT * 100);
        assert!(!ints.any_pending(), "no clock, no completion");
        assert_eq!(serial.read(0xFF02) & 0x80, 0x80, "still pending");
    }

#[test]
    fn unused_control_bits_read_as_one() {
        let mut serial = Serial::new();
        serial.write(0xFF02, 0x00);
        assert_eq!(serial.read(0xFF02), 0x7E);
        // Only bits 7 and 0 are stored.
        serial.write(0xFF02, 0xFF);
        assert_eq!(serial.read(0xFF02), 0xFF);
    }

#[test]
    fn writing_sb_without_starting_transmits_nothing() {
        let mut serial = Serial::new();
        let mut ints = interrupts();
        serial.write(0xFF01, b'Z');
        tick_n(&mut serial, &mut ints, M_CYCLES_PER_BIT * 8);
        assert!(serial.output().is_empty(), "no transfer was requested");
    }
