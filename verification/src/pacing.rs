//! Frame pacing: the decisions a frontend's event loop makes once per frame.
//!
//! The Game Boy runs at 4194304 T-cycles per second and a frame is 70224 of them, so it
//! refreshes at about 59.73 Hz, deliberately not 60. A frontend runs the emulator until
//! the PPU signals a completed frame, then sleeps for whatever is left of the frame's
//! wall-clock budget. Pacing on the emulator's own frame count rather than the host's
//! refresh rate keeps the emulated machine at the right speed on any monitor.
//!
//! Reading the clock and sleeping are the frontend's job; it hands the readings in as
//! nanoseconds on one monotonic clock, and [`FramePacer`] says what to do:
//!
//! 1. [`FramePacer::sleep_before`]: how long to sleep before the next frame is due.
//! 2. Unless paused, run the frame, then [`FramePacer::frame_ran`]: whether this is
//!    the first frame, whether to check for unsaved cartridge RAM, whether to stop.
//! 3. [`FramePacer::advance`]: move the deadline on by one frame, and report whether
//!    the frame was late.
use vstd::prelude::*;
use crate::display::{AUTOSAVE_FRAMES, FRAME_TIME_NANOS};

verus! {

/// What the frontend should do after a frame has run.
#[derive(Debug, Clone, Copy, PartialEq, Eq, Structural)]
pub struct FrameEnd {
    /// The first frame has just run: creating the window takes a few hundred
    /// milliseconds, so a frame-rate clock should start now rather than at launch.
    pub first: bool,
    /// Time to write the save file if the game has touched its RAM.
    pub autosave: bool,
    /// The requested number of frames has run; the frontend should exit.
    pub exit: bool,
}

/// The pacing state of a frontend's frame loop.
#[derive(Debug, Clone, Copy, PartialEq, Eq, Structural)]
pub struct FramePacer {
    /// When the next frame is due, in nanoseconds on the frontend's clock.
    pub next_frame: u64,
    /// Frames run so far.
    pub frames: u64,
    pub paused: bool,
    /// Exit after this many frames, if set.
    pub exit_after: Option<u64>,
}

impl FramePacer {
    /// A loop whose first frame is due at `now`.
    pub fn new(now: u64, exit_after: Option<u64>) -> (r: Self)
        ensures
            r == (FramePacer { next_frame: now, frames: 0, paused: false, exit_after }),
    {
        FramePacer { next_frame: now, frames: 0, paused: false, exit_after }
    }

    /// How long to sleep at `now` before the next frame is due: nothing once the
    /// deadline has passed.
    pub fn sleep_before(&self, now: u64) -> (r: u64)
        ensures
            r == if now < self.next_frame {
                self.next_frame - now
            } else {
                0
            },
    {
        if now < self.next_frame {
            self.next_frame - now
        } else {
            0
        }
    }

    pub fn toggle_pause(&mut self)
        ensures
            *final(self) == (FramePacer { paused: !old(self).paused, ..*old(self) }),
    {
        self.paused = !self.paused;
    }

    /// Counts a frame that has just run and says what follows from it.
    pub fn frame_ran(&mut self) -> (r: FrameEnd)
        requires
            old(self).frames < u64::MAX,
        ensures
            final(self).frames == old(self).frames + 1,
            *final(self) == (FramePacer { frames: final(self).frames, ..*old(self) }),
            r.first == (final(self).frames == 1),
            r.autosave == (final(self).frames % AUTOSAVE_FRAMES == 0),
            r.exit == (old(self).exit_after matches Some(limit) && final(self).frames >= limit),
    {
        self.frames = self.frames + 1;
        let exit = match self.exit_after {
            Some(limit) => self.frames >= limit,
            None => false,
        };
        FrameEnd {
            first: self.frames == 1,
            autosave: self.frames % AUTOSAVE_FRAMES == 0,
            exit,
        }
    }

    /// The pacer after [`FramePacer::advance`] at `after`, and whether the frame was
    /// late.
    pub open spec fn advance_spec(self, after: u64) -> (FramePacer, bool) {
        let due = self.next_frame + FRAME_TIME_NANOS;
        if due < after {
            (FramePacer { next_frame: (after + FRAME_TIME_NANOS) as u64, ..self }, true)
        } else {
            (FramePacer { next_frame: due as u64, ..self }, false)
        }
    }

    /// Moves the deadline on by exactly one frame, measured at `after`, and says
    /// whether the frame was late.
    ///
    /// Advancing from the old deadline rather than from the clock means a slightly
    /// late frame is caught up on instead of compounding into drift. If the deadline
    /// has already passed, the frame overran its budget: nothing is skipped, but the
    /// deadline resyncs to one frame from now, so one slow frame does not start a
    /// death spiral.
    pub fn advance(&mut self, after: u64) -> (late: bool)
        requires
            old(self).next_frame + FRAME_TIME_NANOS <= u64::MAX,
            after + FRAME_TIME_NANOS <= u64::MAX,
        ensures
            (*final(self), late) == old(self).advance_spec(after),
            final(self).next_frame >= after,
    {
        self.next_frame = self.next_frame + FRAME_TIME_NANOS;
        if self.next_frame < after {
            self.next_frame = after + FRAME_TIME_NANOS;
            true
        } else {
            false
        }
    }
}

/// The pacer after advancing once at each of `afters`, in order.
pub open spec fn advance_all(pacer: FramePacer, afters: Seq<u64>) -> FramePacer
    decreases afters.len(),
{
    if afters.len() == 0 {
        pacer
    } else {
        advance_all(pacer.advance_spec(afters[0]).0, afters.drop_first())
    }
}

/// Frames that finish on time keep a fixed schedule: if each of `afters` comes no
/// later than the deadline that frame moves to, the deadline after them is exactly
/// one frame time per frame after where it started, however early each one ran.
pub proof fn lemma_on_time_frames_do_not_drift(pacer: FramePacer, afters: Seq<u64>)
    requires
        pacer.next_frame + afters.len() * FRAME_TIME_NANOS <= u64::MAX,
        forall|i: int|
            0 <= i < afters.len() ==> #[trigger] afters[i] <= pacer.next_frame + (i + 1)
                * FRAME_TIME_NANOS,
    ensures
        advance_all(pacer, afters).next_frame == pacer.next_frame + afters.len()
            * FRAME_TIME_NANOS,
        advance_all(pacer, afters).frames == pacer.frames,
    decreases afters.len(),
{
    if afters.len() > 0 {
        let next = pacer.advance_spec(afters[0]).0;
        assert(afters[0] <= pacer.next_frame + FRAME_TIME_NANOS);
        assert(next.next_frame == pacer.next_frame + FRAME_TIME_NANOS);
        let rest = afters.drop_first();
        assert forall|i: int| 0 <= i < rest.len() implies #[trigger] rest[i] <= next.next_frame + (i
            + 1) * FRAME_TIME_NANOS by {
            assert(rest[i] == afters[i + 1]);
            assert(afters[i + 1] <= pacer.next_frame + (i + 2) * FRAME_TIME_NANOS);
            assert(pacer.next_frame + (i + 2) * FRAME_TIME_NANOS == next.next_frame + (i + 1)
                * FRAME_TIME_NANOS) by (nonlinear_arith)
                requires
                    next.next_frame == pacer.next_frame + FRAME_TIME_NANOS,
            ;
        }
        assert(next.next_frame + rest.len() * FRAME_TIME_NANOS == pacer.next_frame + afters.len()
            * FRAME_TIME_NANOS) by (nonlinear_arith)
            requires
                next.next_frame == pacer.next_frame + FRAME_TIME_NANOS,
                rest.len() + 1 == afters.len(),
        ;
        lemma_on_time_frames_do_not_drift(next, rest);
    }
}

} // verus!
