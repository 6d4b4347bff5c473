//! The frame rate and the screen palette.

use game_koi::display::{FRAME_TIME_NANOS, PALETTE};
use std::time::Duration;

#[test]
    fn frontend_frame_time_matches_the_hardware_refresh_rate() {
        // 70224 T-cycles at 4194304 Hz is ~59.73 Hz, not 60.
        let seconds = Duration::from_nanos(FRAME_TIME_NANOS).as_secs_f64();
        let hz = 1.0 / seconds;
        assert!(
            (hz - 59.727).abs() < 0.01,
            "expected ~59.73 Hz, got {hz}"
        );
    }

#[test]
    fn frontend_palette_is_ordered_light_to_dark() {
        // Shade 0 is the lightest on hardware; check the brightness decreases.
        let luma = |c: [u8; 4]| c[0] as u32 + c[1] as u32 + c[2] as u32;
        for pair in PALETTE.windows(2) {
            assert!(
                luma(pair[0]) > luma(pair[1]),
                "shades must darken as the index rises"
            );
        }
    }

#[test]
    fn mod_frame_time_matches_the_hardware_refresh_rate() {
        // 70224 T-cycles at 4194304 Hz is ~59.73 Hz, not 60.
        let seconds = Duration::from_nanos(FRAME_TIME_NANOS).as_secs_f64();
        let hz = 1.0 / seconds;
        assert!((hz - 59.727).abs() < 0.01, "expected ~59.73 Hz, got {hz}");
    }

#[test]
    fn mod_palette_is_ordered_light_to_dark() {
        // Shade 0 is the lightest on hardware; check the brightness decreases.
        let luma = |c: [u8; 4]| c[0] as u32 + c[1] as u32 + c[2] as u32;
        for pair in PALETTE.windows(2) {
            assert!(
                luma(pair[0]) > luma(pair[1]),
                "shades must darken as the index rises"
            );
        }
    }

#[test]
fn shades_map_to_palette_entries() {
    assert_eq!(game_koi::display::shade_colour(0), PALETTE[0]);
    assert_eq!(game_koi::display::shade_colour(3), PALETTE[3]);
    assert_eq!(game_koi::display::shade_colour(7), PALETTE[3], "only two bits are a shade");
}
