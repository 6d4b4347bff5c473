//! Interrupt registers: priority, IF and IE.

use game_koi::interrupts::{Interrupt, InterruptState};

#[test]
    fn handlers_are_eight_bytes_apart() {
        assert_eq!(Interrupt::VBlank.handler(), 0x0040);
        assert_eq!(Interrupt::Stat.handler(), 0x0048);
        assert_eq!(Interrupt::Timer.handler(), 0x0050);
        assert_eq!(Interrupt::Serial.handler(), 0x0058);
        assert_eq!(Interrupt::Joypad.handler(), 0x0060);
    }

#[test]
    fn lower_bits_take_priority() {
        let mut state = InterruptState {
            enabled: 0x1F,
            ..Default::default()
        };
        state.request(Interrupt::Joypad);
        state.request(Interrupt::Timer);
        state.request(Interrupt::VBlank);
        assert_eq!(state.pending(), Some(Interrupt::VBlank));

        state.acknowledge(Interrupt::VBlank);
        assert_eq!(state.pending(), Some(Interrupt::Timer));
    }

#[test]
    fn both_registers_must_agree() {
        let mut state = InterruptState::default();
        state.request(Interrupt::Timer);
        assert_eq!(state.pending(), None, "requested but not enabled");

        state.enabled = Interrupt::Timer.mask();
        assert_eq!(state.pending(), Some(Interrupt::Timer));

        // Enabled but not requested is equally inert.
        state.acknowledge(Interrupt::Timer);
        assert_eq!(state.pending(), None);
    }

#[test]
    fn unused_if_bits_read_as_one() {
        let mut state = InterruptState::default();
        assert_eq!(state.read_if(), 0xE0);
        state.write_if(0xFF);
        assert_eq!(state.requested, 0x1F, "only 5 bits are stored");
        assert_eq!(state.read_if(), 0xFF);
    }
