//! The length timer and the envelope.

use game_koi::apu::units::{Envelope, LengthTimer};

#[test]
    fn a_bigger_written_length_means_a_shorter_sound() {
        let mut short = LengthTimer::new(64);
        short.set_enabled(true);
        short.set(63);

        let mut long = LengthTimer::new(64);
        long.set_enabled(true);
        long.set(0);

        assert!(short.tick(), "length 63 leaves one tick");
        assert!(!long.tick(), "length 0 leaves the full 64");
    }

#[test]
    fn a_disabled_timer_never_expires() {
        let mut length = LengthTimer::new(64);
        length.set(63);
        for _ in 0..100 {
            assert!(!length.tick());
        }
    }

#[test]
    fn an_extra_clock_shortens_a_reload_by_one() {
        // Triggering during the half of the sequencer period that does not clock length
        // loads 63 rather than 64, so the note ends when it would have anyway.
        let mut length = LengthTimer::new(64);
        length.set_enabled(true);
        length.trigger(true);
        for _ in 0..62 {
            assert!(!length.tick());
        }
        assert!(length.tick(), "63 ticks, not 64");
    }

#[test]
    fn an_extra_clock_only_applies_to_an_enabled_timer() {
        let mut length = LengthTimer::new(64);
        length.trigger(true);
        length.set_enabled(true);
        for _ in 0..63 {
            assert!(!length.tick());
        }
        assert!(length.tick(), "the full 64");
    }

#[test]
    fn trigger_reloads_only_an_expired_timer() {
        let mut length = LengthTimer::new(64);
        length.set_enabled(true);
        length.set(62);

        // Two ticks left; triggering now must not extend it to 64.
        length.trigger(false);
        assert!(!length.tick());
        assert!(length.tick(), "still expired on schedule");

        // Now it has run out, so a trigger reloads it to full.
        length.trigger(false);
        for _ in 0..63 {
            assert!(!length.tick());
        }
        assert!(length.tick());
    }

#[test]
    fn the_envelope_fades_at_its_pace() {
        let mut envelope = Envelope::new();
        envelope.write(0xF2); // volume 15, decreasing, pace 2
        envelope.trigger();
        assert_eq!(envelope.volume(), 15);

        envelope.tick();
        assert_eq!(envelope.volume(), 15, "pace 2 needs two ticks");
        envelope.tick();
        assert_eq!(envelope.volume(), 14);
    }

#[test]
    fn a_pace_of_zero_holds_the_volume() {
        let mut envelope = Envelope::new();
        envelope.write(0xF0); // volume 15, decreasing, pace 0
        envelope.trigger();
        for _ in 0..100 {
            envelope.tick();
        }
        assert_eq!(envelope.volume(), 15);
    }

#[test]
    fn raising_the_pace_without_a_trigger_does_not_underflow() {
        // A game that starts with a pace of 0 and later writes a non-zero one, without
        // retriggering, leaves the timer at 0. Blargg's `01-registers` does exactly
        // this; before the timer saturated, a debug build panicked here.
        let mut envelope = Envelope::new();
        envelope.write(0xF0); // volume 15, pace 0
        envelope.trigger();
        envelope.write(0xF3); // pace 3, no trigger
        for _ in 0..10 {
            envelope.tick();
        }
        assert!(envelope.volume() < 15, "the envelope started moving");
    }

#[test]
    fn the_volume_sticks_at_the_ends() {
        let mut envelope = Envelope::new();
        envelope.write(0x11); // volume 1, decreasing, pace 1
        envelope.trigger();
        envelope.tick();
        assert_eq!(envelope.volume(), 0);
        envelope.tick();
        assert_eq!(envelope.volume(), 0, "does not wrap back to 15");
    }

#[test]
    fn the_envelope_does_not_rewrite_its_register() {
        // Reading NRx2 back gives the initial volume, not the faded one — this is why
        // a game cannot use NRx2 to find out how loud a channel currently is.
        let mut envelope = Envelope::new();
        envelope.write(0xF1);
        envelope.trigger();
        envelope.tick();
        assert_eq!(envelope.volume(), 14);
        assert_eq!(envelope.read(), 0xF1);
    }

#[test]
    fn the_dac_needs_one_of_the_top_five_bits() {
        let mut envelope = Envelope::new();
        envelope.write(0x00);
        assert!(!envelope.dac_enabled());
        // Volume 0 but increasing: still powered.
        envelope.write(0x08);
        assert!(envelope.dac_enabled());
        // A pace alone is not enough.
        envelope.write(0x07);
        assert!(!envelope.dac_enabled());
    }

#[test]
fn the_envelope_never_rewrites_nrx2() {
    let mut envelope = Envelope::new();
    envelope.write(0xF1); // volume 15, decreasing, pace 1
    envelope.trigger();
    for _ in 0..20 {
        envelope.tick();
    }
    assert_eq!(envelope.volume(), 0, "faded all the way out");
    assert_eq!(envelope.read(), 0xF1, "NRx2 still reads as written");
    assert!(envelope.dac_enabled());
}
