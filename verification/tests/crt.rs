//! The display effect cycle.

use game_koi::crt::CrtMode;

#[test]
    fn f3_cycles_through_every_mode_and_wraps() {
        // Every variant has to be reachable from the key, and the cycle has to close.
        let mut mode = CrtMode::Off;
        let mut seen = vec![mode];
        for _ in 0..CrtMode::ALL.len() - 1 {
            mode = mode.next();
            assert!(!seen.contains(&mode), "{mode:?} came round twice");
            seen.push(mode);
        }
        assert_eq!(seen.len(), CrtMode::ALL.len(), "every mode is reachable");
        assert_eq!(mode.next(), CrtMode::Off, "the cycle wraps");
    }

#[test]
    fn only_off_skips_the_pass() {
        assert!(!CrtMode::Off.needs_pass());
        for mode in CrtMode::ALL.into_iter().filter(|m| *m != CrtMode::Off) {
            assert!(mode.needs_pass(), "{mode:?} needs the pass");
        }
    }

#[test]
fn modes_have_overlay_names() {
    assert_eq!(CrtMode::Off.label(), "off");
    assert_eq!(CrtMode::Scanlines.label(), "scanlines");
    assert_eq!(CrtMode::default(), CrtMode::Off);
}
