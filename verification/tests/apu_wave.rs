//! The wave channel: sample order, output level, and wave RAM.

use game_koi::apu::wave::Wave;

/// A channel loaded with a ramp: sample n holds the value n % 16.
fn ramp() -> Wave {
    let mut wave = Wave::new();
    for (i, byte) in wave.ram.iter_mut().enumerate() {
        let high = (i * 2) % 16;
        let low = (i * 2 + 1) % 16;
        *byte = (high as u8) << 4 | low as u8;
    }
    wave.write(0, 0x80, false); // DAC on
    wave.write(2, 0x20, false); // full volume
    wave.write(3, 0x00, false);
    wave.write(4, 0x87, false); // period 0x700, trigger
    wave
}

fn advance_one_sample(wave: &mut Wave) {
    for _ in 0..(2048 - 0x700) {
        wave.tick();
    }
}

#[test]
    fn playback_starts_at_sample_one() {
        // Not sample 0: the index advances before the read, so the first nibble heard
        // is the low nibble of the first byte.
        let mut wave = ramp();
        advance_one_sample(&mut wave);
        assert_eq!(wave.output(), 1);
        advance_one_sample(&mut wave);
        assert_eq!(wave.output(), 2);
    }

#[test]
    fn samples_are_read_high_nibble_first() {
        let mut wave = Wave::new();
        wave.ram[0] = 0xAB;
        wave.ram[1] = 0xCD;
        wave.write(0, 0x80, false);
        wave.write(2, 0x20, false);
        wave.write(3, 0x00, false);
        wave.write(4, 0x87, false);

        advance_one_sample(&mut wave); // index 1: low nibble of byte 0
        assert_eq!(wave.output(), 0xB);
        advance_one_sample(&mut wave); // index 2: high nibble of byte 1
        assert_eq!(wave.output(), 0xC);
        advance_one_sample(&mut wave);
        assert_eq!(wave.output(), 0xD);
    }

#[test]
    fn the_output_level_shifts_rather_than_scales() {
        let mut wave = ramp();
        for _ in 0..8 {
            advance_one_sample(&mut wave);
        }
        let full = wave.output();
        assert_eq!(full, 8);

        wave.write(2, 0x40, false); // 50%
        assert_eq!(wave.output(), 4);
        wave.write(2, 0x60, false); // 25%
        assert_eq!(wave.output(), 2);
        wave.write(2, 0x00, false); // mute
        assert_eq!(wave.output(), 0);
    }

#[test]
    fn the_wave_repeats_after_32_samples() {
        let mut wave = ramp();
        advance_one_sample(&mut wave);
        let first = wave.output();
        for _ in 0..32 {
            advance_one_sample(&mut wave);
        }
        assert_eq!(wave.output(), first);
    }

#[test]
    fn triggering_replays_the_stale_sample() {
        let mut wave = ramp();
        for _ in 0..5 {
            advance_one_sample(&mut wave);
        }
        let held = wave.output();

        // The index resets, but the buffer is untouched, so the old sample keeps coming
        // out until the divider fires again.
        wave.write(4, 0x87, false);
        assert_eq!(wave.output(), held);
        advance_one_sample(&mut wave);
        assert_eq!(wave.output(), 1, "back to the start of the wave");
    }

#[test]
    fn the_dac_switch_is_its_own_bit() {
        let mut wave = ramp();
        assert!(wave.is_enabled());
        wave.write(0, 0x00, false);
        assert!(!wave.is_enabled());

        // And a trigger with the DAC off cannot start it.
        wave.write(4, 0x87, false);
        assert!(!wave.is_enabled());
    }

#[test]
    fn wave_ram_is_locked_while_the_channel_plays() {
        let mut wave = ramp();
        assert!(!wave.ram_accessible());
        wave.write(0, 0x00, false); // DAC off stops the channel
        assert!(wave.ram_accessible());
    }

#[test]
    fn power_off_clears_the_buffer_but_not_the_ram() {
        let mut wave = ramp();
        advance_one_sample(&mut wave);
        assert_ne!(wave.output(), 0);

        wave.power_off();
        assert_eq!(wave.sample_buffer, 0);
        assert_eq!(wave.ram[1], 0x23, "wave RAM survives a power cycle");
    }
