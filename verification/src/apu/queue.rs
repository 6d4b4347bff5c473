//! Finished samples on their way to the host.
//!
//! The emulator produces sound in bursts — a frame's worth, then a sleep — so
//! samples wait in a queue for the audio device. The queue is bounded: were the
//! device slower than the emulator, an unbounded one would only grow, adding latency
//! that never recovers. When it is full the oldest sample gives way, because if the
//! host has fallen behind, the stale audio is the part nobody wants to hear.
use std::collections::VecDeque;
use vstd::prelude::*;

verus! {

/// How many samples the queue keeps before dropping the oldest: roughly a fifth of a
/// second of stereo at 48 kHz.
pub const MAX_QUEUED_SAMPLES: usize = 8192;

/// The samples still in the queue after `samples` has had `sample` added to its end:
/// all of them, unless that is more than [`MAX_QUEUED_SAMPLES`], in which case the
/// oldest is gone.
pub open spec fn pushed<T>(samples: Seq<T>, sample: T) -> Seq<T> {
    if samples.len() < MAX_QUEUED_SAMPLES {
        samples.push(sample)
    } else {
        samples.drop_first().push(sample)
    }
}

/// A bounded first-in, first-out queue of samples.
pub struct SampleQueue<T> {
    samples: VecDeque<T>,
}

impl<T> View for SampleQueue<T> {
    type V = Seq<T>;

    /// The waiting samples, oldest first.
    closed spec fn view(&self) -> Seq<T> {
        self.samples@
    }
}

impl<T> SampleQueue<T> {
    #[verifier::type_invariant]
    closed spec fn bounded(self) -> bool {
        self.samples@.len() <= MAX_QUEUED_SAMPLES
    }

    /// An empty queue.
    pub fn new() -> (r: Self)
        ensures
            r@ == Seq::<T>::empty(),
    {
        SampleQueue { samples: VecDeque::new() }
    }

    /// How many samples are waiting.
    pub fn len(&self) -> (r: usize)
        ensures
            r == self@.len(),
            r <= MAX_QUEUED_SAMPLES,
    {
        proof {
            use_type_invariant(self);
        }
        self.samples.len()
    }

    /// Adds a sample at the end, dropping the oldest first if the queue is full.
    pub fn push(&mut self, sample: T)
        ensures
            final(self)@ == pushed(old(self)@, sample),
            final(self)@.len() <= MAX_QUEUED_SAMPLES,
    {
        proof {
            use_type_invariant(&*self);
        }
        let mut samples = VecDeque::new();
        std::mem::swap(&mut samples, &mut self.samples);
        if samples.len() >= MAX_QUEUED_SAMPLES {
            let _ = samples.pop_front();
            assert(samples@ =~= old(self)@.drop_first());
        }
        samples.push_back(sample);
        self.samples = samples;
    }

    /// Moves every waiting sample to the end of `out`, oldest first, leaving the
    /// queue empty.
    pub fn drain_into(&mut self, out: &mut Vec<T>)
        ensures
            final(self)@ == Seq::<T>::empty(),
            final(out)@ == old(out)@ + old(self)@,
    {
        proof {
            use_type_invariant(&*self);
        }
        let mut samples = VecDeque::new();
        std::mem::swap(&mut samples, &mut self.samples);
        let ghost all = samples@;
        let ghost start = out@;
        while samples.len() > 0
            invariant
                start + all =~= out@ + samples@,
            decreases samples@.len(),
        {
            match samples.pop_front() {
                Some(sample) => out.push(sample),
                None => {},
            }
        }
        assert(samples@ =~= Seq::<T>::empty());
    }
}

/// The queue after each of `more` has been pushed onto `samples`, in order.
pub open spec fn pushed_all<T>(samples: Seq<T>, more: Seq<T>) -> Seq<T>
    decreases more.len(),
{
    if more.len() == 0 {
        samples
    } else {
        pushed_all(pushed(samples, more[0]), more.drop_first())
    }
}

/// The newest `MAX_QUEUED_SAMPLES` of `all`, or all of them if there are fewer.
pub open spec fn newest<T>(all: Seq<T>) -> Seq<T> {
    if all.len() <= MAX_QUEUED_SAMPLES {
        all
    } else {
        all.subrange(all.len() - MAX_QUEUED_SAMPLES, all.len() as int)
    }
}

/// However many samples are pushed, the queue holds the newest
/// [`MAX_QUEUED_SAMPLES`] of everything it was given, oldest first, and never more.
pub proof fn lemma_the_queue_keeps_the_newest<T>(samples: Seq<T>, more: Seq<T>)
    requires
        samples.len() <= MAX_QUEUED_SAMPLES,
    ensures
        pushed_all(samples, more) == newest(samples + more),
        pushed_all(samples, more).len() <= MAX_QUEUED_SAMPLES,
    decreases more.len(),
{
    if more.len() == 0 {
        assert(samples + more =~= samples);
    } else {
        let next = pushed(samples, more[0]);
        lemma_the_queue_keeps_the_newest(next, more.drop_first());
        let all = samples + more;
        let rest = next + more.drop_first();
        if samples.len() < MAX_QUEUED_SAMPLES {
            assert(rest =~= all);
        } else {
            assert(rest =~= all.drop_first());
            assert(newest(rest) =~= newest(all));
        }
    }
}

} // verus!
