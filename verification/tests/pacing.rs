//! The frame loop's decisions: sleeping, late frames, autosave and exit.

use game_koi::display::{AUTOSAVE_FRAMES, FRAME_TIME_NANOS};
use game_koi::pacing::{FrameEnd, FramePacer};

#[test]
fn the_first_frame_is_due_at_once() {
    let pacer = FramePacer::new(1_000, None);
    assert_eq!(pacer.sleep_before(1_000), 0);
    assert_eq!(pacer.sleep_before(2_000), 0, "a passed deadline means no sleep");
}

#[test]
fn an_early_loop_sleeps_until_the_deadline() {
    let mut pacer = FramePacer::new(0, None);
    assert!(!pacer.advance(5_000_000), "finished well within the budget");
    assert_eq!(pacer.next_frame, FRAME_TIME_NANOS);
    assert_eq!(pacer.sleep_before(6_000_000), FRAME_TIME_NANOS - 6_000_000);
}

#[test]
fn on_time_frames_do_not_drift() {
    let mut pacer = FramePacer::new(0, None);
    // Each frame finishes at a different point inside its budget.
    for (i, finish) in [1_000_000u64, 16_000_000, 3_000_000, 16_742_706].iter().enumerate() {
        let frame_start = i as u64 * FRAME_TIME_NANOS;
        assert!(!pacer.advance(frame_start + finish));
    }
    assert_eq!(pacer.next_frame, 4 * FRAME_TIME_NANOS, "exactly four frames on");
}

#[test]
fn a_late_frame_resyncs_instead_of_spiralling() {
    let mut pacer = FramePacer::new(0, None);
    // The frame took three budgets' worth of time.
    let after = 3 * FRAME_TIME_NANOS;
    assert!(pacer.advance(after));
    assert_eq!(pacer.next_frame, after + FRAME_TIME_NANOS, "one frame from now, not two behind");
    assert!(!pacer.advance(after + FRAME_TIME_NANOS / 2));
}

#[test]
fn autosave_comes_round_every_two_seconds() {
    let mut pacer = FramePacer::new(0, None);
    let mut saves = 0;
    for _ in 0..(3 * AUTOSAVE_FRAMES) {
        if pacer.frame_ran().autosave {
            saves += 1;
        }
    }
    assert_eq!(saves, 3);
    assert_eq!(AUTOSAVE_FRAMES, 120);
}

#[test]
fn the_first_frame_is_reported_once() {
    let mut pacer = FramePacer::new(0, None);
    assert_eq!(pacer.frame_ran(), FrameEnd { first: true, autosave: false, exit: false });
    assert!(!pacer.frame_ran().first);
}

#[test]
fn a_frame_limit_ends_the_loop() {
    let mut pacer = FramePacer::new(0, Some(3));
    assert!(!pacer.frame_ran().exit);
    assert!(!pacer.frame_ran().exit);
    assert!(pacer.frame_ran().exit);
    assert_eq!(pacer.frames, 3);
}

#[test]
fn pausing_toggles() {
    let mut pacer = FramePacer::new(0, None);
    pacer.toggle_pause();
    assert!(pacer.paused);
    pacer.toggle_pause();
    assert!(!pacer.paused);
}
