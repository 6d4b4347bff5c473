//! The noise channel's shift register and timing.

use game_koi::apu::noise::Noise;

fn playing(control: u8) -> Noise {
    let mut noise = Noise::new();
    noise.write(2, 0xF0, false); // volume 15, no envelope
    noise.write(3, control, false);
    noise.write(4, 0x80, false); // trigger
    noise
}

/// Collects the channel's output bit for `count` shifts.
fn bits(noise: &mut Noise, count: usize) -> Vec<u8> {
    let mut out = Vec::new();
    for _ in 0..count {
        out.push(u8::from(noise.output() > 0));
        let period = noise.period();
        for _ in 0..period {
            noise.tick();
        }
    }
    out
}

#[test]
    fn the_divider_and_shift_set_the_rate() {
        // Base rate: divider 1, shift 0 is one shift per 4 M-cycles.
        let noise = playing(0x10);
        assert_eq!(noise.period(), 4);

        // Divider 0 counts as a half, so it is twice as fast.
        let noise = playing(0x00);
        assert_eq!(noise.period(), 2);

        // Each shift step doubles the period.
        let noise = playing(0x21); // shift 2, divider 1
        assert_eq!(noise.period(), 16);
    }

#[test]
    fn fifteen_bit_mode_does_not_repeat_quickly() {
        let mut noise = playing(0x10);
        let sequence = bits(&mut noise, 200);
        // A 127-step sequence would line up with itself here; a 32767-step one will not.
        let repeats = sequence[..100] == sequence[100..200];
        assert!(!repeats, "15-bit noise must not repeat every 100 shifts");
    }

#[test]
    fn seven_bit_mode_repeats_every_127_shifts() {
        let mut noise = playing(0x18); // short mode
        let sequence = bits(&mut noise, 254);
        assert_eq!(
            sequence[..127],
            sequence[127..254],
            "the short register folds the sequence to 127 steps"
        );
    }

#[test]
    fn a_freshly_triggered_channel_starts_loud() {
        // The register is cleared on trigger and bit 0 low means "emit the volume".
        let noise = playing(0x10);
        assert_eq!(noise.output(), 15);
    }

#[test]
    fn a_shift_of_fourteen_freezes_the_register() {
        let mut noise = playing(0xE0); // shift 14
        let before = noise.lfsr;
        for _ in 0..100_000 {
            noise.tick();
        }
        assert_eq!(noise.lfsr, before, "no clocks reach the register");
    }

#[test]
    fn the_envelope_scales_the_loud_half() {
        let mut noise = Noise::new();
        noise.write(2, 0x80, false); // volume 8
        noise.write(3, 0x10, false);
        noise.write(4, 0x80, false);
        assert_eq!(noise.output(), 8);
    }

#[test]
    fn noise_the_length_timer_stops_the_channel() {
        let mut noise = Noise::new();
        noise.write(2, 0xF0, false);
        noise.write(1, 0x3F, false);
        noise.write(4, 0xC0, false); // trigger, length enabled
        assert!(noise.is_enabled());
        noise.tick_length();
        assert!(!noise.is_enabled());
    }
