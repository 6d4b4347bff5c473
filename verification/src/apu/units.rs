//! The two counters that several channels share: the length timer and the envelope.
//!
//! Both are clocked by the frame sequencer rather than by the channel's own frequency
//! timer, which is why they live here instead of inside a channel — a channel's pitch
//! has nothing to do with how fast it fades out.
use vstd::prelude::*;

verus! {

/// Shuts a channel off after a set time.
///
/// The hardware counts *up* from the value the game writes until it hits 64 (or 256 for
/// the wave channel), which is why a *larger* written value means a *shorter* sound.
/// Counting down from `max - value` to zero is the same thing and makes the expiry test
/// obvious, so that is what this does — but it means [`LengthTimer::set`] takes the
/// value as the game wrote it and does the subtraction here, in one place.
#[derive(Debug, Clone, Copy, PartialEq, Eq, Structural)]
pub struct LengthTimer {
    pub counter: u16,
    /// 64 for the pulse and noise channels, 256 for the wave channel, whose length
    /// register is a full byte rather than six bits.
    pub max: u16,
    /// NRx4 bit 6. When clear the timer still counts, it just never shuts anything off.
    pub enabled: bool,
}

impl LengthTimer {
    /// The counter never exceeds the full length, and the full length is not zero.
    pub open spec fn well_formed(self) -> bool {
        1 <= self.max && self.counter <= self.max
    }

    pub open spec fn set_spec(self, value: u16) -> LengthTimer {
        LengthTimer { counter: (self.max - value) as u16, ..self }
    }

    pub open spec fn trigger_spec(self, extra_clock: bool) -> LengthTimer {
        if self.counter == 0 {
            LengthTimer {
                counter: if extra_clock && self.enabled {
                    (self.max - 1) as u16
                } else {
                    self.max
                },
                ..self
            }
        } else {
            self
        }
    }

    /// The timer after the extra tick, and whether that tick ran it out.
    pub open spec fn extra_clock_spec(self) -> (LengthTimer, bool) {
        if self.counter == 0 {
            (self, false)
        } else {
            (LengthTimer { counter: (self.counter - 1) as u16, ..self }, self.counter == 1)
        }
    }

    /// The timer after a 256 Hz tick, and whether that tick ran it out.
    pub open spec fn tick_spec(self) -> (LengthTimer, bool) {
        if !self.enabled || self.counter == 0 {
            (self, false)
        } else {
            (LengthTimer { counter: (self.counter - 1) as u16, ..self }, self.counter == 1)
        }
    }

    pub fn new(max: u16) -> (r: Self)
        ensures
            r == (LengthTimer { counter: 0, max, enabled: false }),
    {
        LengthTimer { counter: 0, max, enabled: false }
    }

    pub fn set(&mut self, value: u16)
        requires
            value <= old(self).max,
        ensures
            *final(self) == old(self).set_spec(value),
    {
        self.counter = self.max - value;
    }

    pub fn is_enabled(&self) -> (r: bool)
        ensures
            r == self.enabled,
    {
        self.enabled
    }

    pub fn set_enabled(&mut self, enabled: bool)
        ensures
            *final(self) == (LengthTimer { enabled, ..*old(self) }),
    {
        self.enabled = enabled;
    }

    /// On trigger, a timer that has run out is reloaded to full. One that has time left
    /// is untouched — retriggering does not extend a note that is still playing.
    ///
    /// `extra_clock` is the sequencer-phase quirk: a reload that lands in the half of
    /// the 512 Hz period that does not clock length comes up one short. See
    /// [`LengthTimer::extra_clock`].
    pub fn trigger(&mut self, extra_clock: bool)
        requires
            old(self).well_formed(),
        ensures
            *final(self) == old(self).trigger_spec(extra_clock),
    {
        if self.counter == 0 {
            self.counter = self.max;
            if extra_clock && self.enabled {
                self.counter = self.counter - 1;
            }
        }
    }

    /// The out-of-band tick a write to NRx4 can cause.
    ///
    /// The length counter is clocked on the sequencer's even steps. Enabling it during
    /// the *odd* half — when the next step will not clock it — makes the hardware clock
    /// it once immediately instead, so the note ends where it would have anyway rather
    /// than a full step late. Returns true if that tick ran the timer out.
    pub fn extra_clock(&mut self) -> (r: bool)
        ensures
            (*final(self), r) == old(self).extra_clock_spec(),
    {
        if self.counter == 0 {
            return false;
        }
        self.counter = self.counter - 1;
        self.counter == 0
    }

    /// Clocked at 256 Hz. Returns true on the tick that runs the timer out, which is
    /// the channel's cue to shut itself off.
    pub fn tick(&mut self) -> (r: bool)
        ensures
            (*final(self), r) == old(self).tick_spec(),
    {
        if !self.enabled || self.counter == 0 {
            return false;
        }
        self.counter = self.counter - 1;
        self.counter == 0
    }

    pub fn power_off(&mut self)
        ensures
            *final(self) == (LengthTimer { enabled: false, ..*old(self) }),
    {
        self.enabled = false;
    }
}

/// Fades a channel's volume up or down over time.
///
/// The envelope changes the volume the channel *outputs*; it never touches NRx2, which
/// is why reading that register back gives you the initial volume however long the note
/// has been fading. It is also why the envelope reaching zero does not turn the channel
/// off — the DAC is still on, still converting a digital zero.
#[derive(Debug, Clone, Copy, PartialEq, Eq, Structural)]
pub struct Envelope {
    /// NRx2 as written. Kept whole because the DAC-enable test looks at the raw bits.
    pub register: u8,
    /// The volume actually in use, 0-15.
    pub volume: u8,
    pub timer: u8,
}

impl Envelope {
    pub open spec fn dac_enabled_spec(self) -> bool {
        self.register & 0xF8 != 0
    }

    pub open spec fn pace_spec(self) -> u8 {
        self.register & 0x07
    }

    pub open spec fn increasing_spec(self) -> bool {
        self.register & 0x08 != 0
    }

    pub open spec fn trigger_spec(self) -> Envelope {
        Envelope { volume: self.register >> 4, timer: self.pace_spec(), ..self }
    }

    /// A 64 Hz tick: a pace of zero holds everything; otherwise the timer counts down
    /// (stopping at zero) and, when it runs out, reloads and moves the volume one
    /// step, sticking at 0 and 15.
    pub open spec fn tick_spec(self) -> Envelope {
        if self.pace_spec() == 0 {
            self
        } else {
            let timer = if self.timer == 0 {
                0
            } else {
                (self.timer - 1) as u8
            };
            if timer != 0 {
                Envelope { timer, ..self }
            } else {
                Envelope {
                    timer: self.pace_spec(),
                    volume: if self.increasing_spec() && self.volume < 15 {
                        (self.volume + 1) as u8
                    } else if !self.increasing_spec() && self.volume > 0 {
                        (self.volume - 1) as u8
                    } else {
                        self.volume
                    },
                    ..self
                }
            }
        }
    }

    pub fn new() -> (r: Self)
        ensures
            r == (Envelope { register: 0, volume: 0, timer: 0 }),
    {
        Envelope { register: 0, volume: 0, timer: 0 }
    }

    pub fn read(&self) -> (r: u8)
        ensures
            r == self.register,
    {
        self.register
    }

    pub fn write(&mut self, value: u8)
        ensures
            *final(self) == (Envelope { register: value, ..*old(self) }),
    {
        self.register = value;
    }

    /// Whether the channel's DAC is powered.
    ///
    /// Any of the top five bits set is enough: those are the initial volume and the
    /// direction. Writing 0x00 (volume 0, decreasing) is the documented way to cut the
    /// DAC — and it takes the channel with it, since a channel cannot be on with its
    /// DAC off.
    pub fn dac_enabled(&self) -> (r: bool)
        ensures
            r == self.dac_enabled_spec(),
    {
        self.register & 0xF8 != 0
    }

    fn pace(&self) -> (r: u8)
        ensures
            r == self.pace_spec(),
    {
        self.register & 0x07
    }

    fn increasing(&self) -> (r: bool)
        ensures
            r == self.increasing_spec(),
    {
        self.register & 0x08 != 0
    }

    pub fn volume(&self) -> (r: u8)
        ensures
            r == self.volume,
    {
        self.volume
    }

    pub fn trigger(&mut self)
        ensures
            *final(self) == old(self).trigger_spec(),
    {
        self.volume = self.register >> 4;
        self.timer = self.pace();
    }

    /// Clocked at 64 Hz.
    pub fn tick(&mut self)
        ensures
            *final(self) == old(self).tick_spec(),
    {
        // A pace of zero switches the envelope off entirely rather than meaning "every
        // tick" — the note holds whatever volume it has.
        if self.pace() == 0 {
            return;
        }
        // Saturating, not plain subtraction: the timer is only loaded by a trigger, so
        // a game that writes a non-zero pace into NRx2 without retriggering leaves it
        // at zero here. On hardware that just means the next tick fires immediately.
        self.timer = self.timer.saturating_sub(1);
        if self.timer != 0 {
            return;
        }
        self.timer = self.pace();
        // The volume sticks at the ends of its range instead of wrapping, so a fade-out
        // stays faded out rather than jumping back to full.
        if self.increasing() && self.volume < 15 {
            self.volume = self.volume + 1;
        } else if !self.increasing() && self.volume > 0 {
            self.volume = self.volume - 1;
        }
    }

    pub fn power_off(&mut self)
        ensures
            *final(self) == (Envelope { register: 0, volume: 0, timer: 0 }),
    {
        self.register = 0;
        self.volume = 0;
        self.timer = 0;
    }
}

/// A note lasts exactly as long as it was told to: a timer set to `max - n` and
/// enabled runs out on its `(max - n)`-th tick and not before.
pub proof fn lemma_length_counts_down(t: LengthTimer)
    requires
        t.well_formed(),
        t.enabled,
        t.counter > 0,
    ensures
        t.tick_spec().0.counter == t.counter - 1,
        t.tick_spec().1 <==> t.counter == 1,
        t.tick_spec().0.well_formed(),
{
}

/// The envelope keeps the volume within 0-15, and never rewrites NRx2.
pub proof fn lemma_envelope_bounded(e: Envelope)
    requires
        e.volume <= 15,
    ensures
        e.tick_spec().volume <= 15,
        e.tick_spec().register == e.register,
        e.trigger_spec().volume <= 15,
{
    let register = e.register;
    assert(register >> 4 <= 15) by (bit_vector);
}

/// A disabled length timer never expires: ticking it changes nothing and reports
/// nothing.
pub proof fn lemma_disabled_length_never_expires(t: LengthTimer)
    requires
        !t.enabled,
    ensures
        t.tick_spec() == (t, false),
{
}

/// The envelope moves the volume one step each time its timer runs out: towards 15
/// when NRx2's direction bit is set — from any volume below 15, silence included — and
/// towards 0 when it is clear, never past either end; the timer then reloads from the
/// pace. Until it runs out, the volume holds and the timer counts down.
pub proof fn lemma_envelope_steps_once_per_pace(e: Envelope)
    requires
        e.register & 0x07 != 0,
        e.volume <= 15,
    ensures
        e.timer <= 1 ==> e.tick_spec().timer == e.register & 0x07 && e.tick_spec().volume == if e.register
            & 0x08 != 0 {
            if e.volume < 15 {
                e.volume + 1
            } else {
                15
            }
        } else {
            if e.volume > 0 {
                e.volume - 1
            } else {
                0
            }
        },
        e.timer > 1 ==> e.tick_spec().timer == e.timer - 1 && e.tick_spec().volume == e.volume,
{
}

} // verus!
