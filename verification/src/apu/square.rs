//! The two pulse channels: a square wave with a selectable duty cycle, an envelope,
//! and — on channel 1 only — a period sweep.
//!
//! # How a square wave gets made
//!
//! There is no oscillator. A counter walks an 8-entry pattern of ones and zeros over
//! and over, and the pattern is what makes the shape: `00000001` spends one step of
//! eight high, so 12.5% duty. Changing the "frequency" changes how fast the counter
//! walks, not the pattern.
//!
//! # Period is a countdown, not a frequency
//!
//! The 11-bit value in NRx3/NRx4 is not a frequency — it is the *starting point* of an
//! up-counter that advances at 1048576 Hz and reloads when it overflows past 2047. So
//! the number of ticks per duty step is `2048 - period`, and a *larger* register value
//! means a *shorter* step and a *higher* note. Counting down from `2048 - period` to
//! zero is the same thing and reads better, which is what this does.
use vstd::prelude::*;
use super::units::{Envelope, LengthTimer};
use super::lemma_period_bits;

verus! {

/// The four duty patterns, one bit per step, MSB first.
///
/// 25% and 75% are the same wave with opposite phase — audibly identical on their own,
/// and the reason the hardware bothers with both is the phase difference when mixed
/// against another channel.
pub const DUTY_PATTERNS: [u8; 4] = [0b0000_0001, 0b1000_0001, 0b1000_0111, 0b0111_1110];

/// What a sweep tick decided.
///
/// Both fields can be set at once, and that combination is not a contradiction: the
/// hardware writes the new period back and *then* runs a second overflow check on it,
/// so a sweep step can update the note and kill the channel in the same breath.
pub struct SweepResult {
    /// A new period to write back to NR13/NR14.
    pub period: Option<u16>,
    /// The overflow check failed, so the channel must stop.
    pub overflowed: bool,
}

/// Channel 1's period sweep: slides the note up or down on its own.
///
/// It works on a private copy of the period called the shadow register, not on NR13/14
/// directly. That is why writing a new period while a sweep is running appears to work
/// and then gets stomped on the next sweep step — the shadow still holds the old value.
#[derive(Debug, Clone, Copy, PartialEq, Eq, Structural)]
pub struct Sweep {
    /// NR10 as written, so reads give back exactly what was set.
    pub register: u8,
    pub shadow: u16,
    pub timer: u8,
    pub enabled: bool,
    /// Whether a subtracting calculation has happened since the last trigger. Only used
    /// for the quirk in [`Sweep::write`].
    pub negate_used: bool,
}

/// Shifting right never makes a number bigger.
proof fn lemma_shift_shrinks(x: u16, s: u8)
    ensures
        x >> s <= x,
{
    assert(x >> s <= x) by (bit_vector);
}

impl Sweep {
    pub open spec fn pace_spec(self) -> u8 {
        (self.register >> 4) & 0x07
    }

    pub open spec fn negate_spec(self) -> bool {
        self.register & 0x08 != 0
    }

    pub open spec fn step_spec(self) -> u8 {
        self.register & 0x07
    }

    /// The sweep after a write to NR10, and whether the write must stop the channel:
    /// leaving subtract mode after a subtracting calculation does.
    pub open spec fn write_spec(self, value: u8) -> (Sweep, bool) {
        (
            Sweep { register: value, ..self },
            self.negate_spec() && value & 0x08 == 0 && self.negate_used,
        )
    }

    pub open spec fn reload_spec(self) -> Sweep {
        Sweep {
            timer: if self.pace_spec() == 0 {
                8
            } else {
                self.pace_spec()
            },
            ..self
        }
    }

    /// The next period — the shadow plus or minus itself shifted right by the step —
    /// or `None` where that overflows 11 bits.
    pub open spec fn calculate_spec(self) -> (Sweep, Option<u16>) {
        let delta = self.shadow >> self.step_spec();
        let next: int = if self.negate_spec() {
            self.shadow - delta
        } else {
            self.shadow + delta
        };
        (
            if self.negate_spec() {
                Sweep { negate_used: true, ..self }
            } else {
                self
            },
            if next <= 0x07FF {
                Some(next as u16)
            } else {
                None
            },
        )
    }

    /// The sweep after a trigger with `period`, and whether the immediate overflow
    /// check failed.
    pub open spec fn trigger_spec(self, period: u16) -> (Sweep, bool) {
        let s = Sweep { shadow: period, ..self }.reload_spec();
        let s = Sweep {
            enabled: s.pace_spec() != 0 || s.step_spec() != 0,
            negate_used: false,
            ..s
        };
        if s.step_spec() != 0 {
            let (s, next) = s.calculate_spec();
            (s, next is None)
        } else {
            (s, false)
        }
    }

    /// The sweep after a 128 Hz tick, the period to write back, and whether the
    /// channel overflowed.
    pub open spec fn tick_spec(self) -> (Sweep, Option<u16>, bool) {
        if !self.enabled {
            (self, None, false)
        } else {
            let timer = if self.timer == 0 {
                0
            } else {
                (self.timer - 1) as u8
            };
            let s = Sweep { timer, ..self };
            if timer != 0 {
                (s, None, false)
            } else {
                let s = s.reload_spec();
                if s.pace_spec() == 0 {
                    (s, None, false)
                } else {
                    let (s, next) = s.calculate_spec();
                    match next {
                        None => (s, None, true),
                        Some(period) => if s.step_spec() == 0 {
                            (s, None, false)
                        } else {
                            let (s, after) = Sweep { shadow: period, ..s }.calculate_spec();
                            (s, Some(period), after is None)
                        },
                    }
                }
            }
        }
    }

    pub open spec fn powered_off() -> Sweep {
        Sweep { register: 0, shadow: 0, timer: 0, enabled: false, negate_used: false }
    }

    pub fn new() -> (r: Self)
        ensures
            r == Sweep::powered_off(),
    {
        Sweep { register: 0, shadow: 0, timer: 0, enabled: false, negate_used: false }
    }

    pub fn read(&self) -> (r: u8)
        ensures
            r == self.register,
    {
        self.register
    }

    fn pace(&self) -> (r: u8)
        ensures
            r == self.pace_spec(),
    {
        (self.register >> 4) & 0x07
    }

    fn negate(&self) -> (r: bool)
        ensures
            r == self.negate_spec(),
    {
        self.register & 0x08 != 0
    }

    fn step(&self) -> (r: u8)
        ensures
            r == self.step_spec(),
            r < 8,
    {
        proof {
            super::lemma_register_fields(self.register);
        }
        self.register & 0x07
    }

    /// Returns true if the channel must be disabled.
    pub fn write(&mut self, value: u8) -> (r: bool)
        ensures
            (*final(self), r) == old(self).write_spec(value),
    {
        let was_negating = self.negate();
        self.register = value;
        was_negating && !self.negate() && self.negate_used
    }

    /// Returns true if the immediate overflow check failed and the channel must stop.
    pub fn trigger(&mut self, period: u16) -> (r: bool)
        requires
            period <= 0x07FF,
        ensures
            (*final(self), r) == old(self).trigger_spec(period),
            final(self).shadow <= 0x07FF,
    {
        self.shadow = period;
        self.reload_timer();
        // The unit runs if *either* field is non-zero: a pace with no step still ticks
        // (doing nothing), and a step with no pace still arms the overflow check.
        self.enabled = self.pace() != 0 || self.step() != 0;
        self.negate_used = false;
        // With a non-zero step the overflow check happens right away, before any timer
        // has elapsed — so a badly chosen sweep can kill the note instantly.
        if self.step() != 0 {
            self.calculate().is_none()
        } else {
            false
        }
    }

    pub fn tick(&mut self) -> (r: SweepResult)
        requires
            old(self).shadow <= 0x07FF,
        ensures
            (*final(self), r.period, r.overflowed) == old(self).tick_spec(),
            final(self).shadow <= 0x07FF,
            r.period matches Some(p) ==> p <= 0x07FF,
    {
        if !self.enabled {
            return SweepResult { period: None, overflowed: false };
        }
        // Saturating for the same reason as the envelope's: nothing reloads this
        // outside a trigger, so a write to NR10 can find it already at zero.
        self.timer = self.timer.saturating_sub(1);
        if self.timer != 0 {
            return SweepResult { period: None, overflowed: false };
        }
        // The pace is re-read from the register only now, which is why a mid-note
        // change to NR10's pace does not take effect until the current step finishes.
        self.reload_timer();
        if self.pace() == 0 {
            return SweepResult { period: None, overflowed: false };
        }
        let new_period = match self.calculate() {
            Some(period) => period,
            None => return SweepResult { period: None, overflowed: true },
        };
        if self.step() == 0 {
            return SweepResult { period: None, overflowed: false };
        }
        self.shadow = new_period;
        // A second calculation runs immediately, purely as an overflow check — its
        // result is discarded. This is why a sweep can stop one step earlier than the
        // arithmetic alone suggests: the note that would have played next is the one
        // whose *successor* overflows.
        let overflowed = self.calculate().is_none();
        SweepResult { period: Some(new_period), overflowed }
    }

    fn reload_timer(&mut self)
        ensures
            *final(self) == old(self).reload_spec(),
    {
        // A pace of 0 reloads as 8 rather than stalling, so the unit keeps ticking.
        self.timer = if self.pace() == 0 {
            8
        } else {
            self.pace()
        };
    }

    /// The next period, or `None` if it overflowed 11 bits.
    fn calculate(&mut self) -> (r: Option<u16>)
        requires
            old(self).shadow <= 0x07FF,
        ensures
            (*final(self), r) == old(self).calculate_spec(),
            r matches Some(p) ==> p <= 0x07FF,
    {
        let delta = self.shadow >> self.step();
        proof {
            lemma_shift_shrinks(self.shadow, self.step_spec());
        }
        let new_period = if self.negate() {
            self.negate_used = true;
            // Subtraction cannot underflow into the channel being disabled: the shift
            // makes delta no larger than the shadow itself.
            self.shadow - delta
        } else {
            self.shadow + delta
        };
        if new_period <= 0x07FF {
            Some(new_period)
        } else {
            None
        }
    }

    pub fn power_off(&mut self)
        ensures
            *final(self) == Sweep::powered_off(),
    {
        self.register = 0;
        self.shadow = 0;
        self.timer = 0;
        self.enabled = false;
        self.negate_used = false;
    }
}

/// A subtracting sweep can never overflow: the shifted shadow is no larger than the
/// shadow, so the difference stays within 11 bits.
pub proof fn lemma_subtraction_never_overflows(s: Sweep)
    requires
        s.shadow <= 0x07FF,
        s.negate_spec(),
    ensures
        s.calculate_spec().1 is Some,
{
    lemma_shift_shrinks(s.shadow, s.step_spec());
}

/// A pulse channel.
#[derive(Debug, Clone, Copy, PartialEq, Eq, Structural)]
pub struct Square {
    /// NRx1 bits 7-6.
    pub duty: u8,
    /// The 11-bit period value from NRx3 and NRx4.
    pub period: u16,
    /// Counts down one per M-cycle; reloads to `2048 - period` and advances the wave.
    pub timer: u16,
    /// Which of the eight steps of the duty pattern is current.
    pub step: u8,
    pub length: LengthTimer,
    pub envelope: Envelope,
    /// Whether the generator is running. Distinct from the DAC being powered: a
    /// disabled channel still feeds a digital 0 to an enabled DAC.
    pub enabled: bool,
    /// Channel 1 has a sweep unit; channel 2 does not. The `Option` is the difference
    /// between the two channels — everything else is shared.
    pub sweep: Option<Sweep>,
}

impl Square {
    /// The registers hold values their bit widths allow, and the timers never sit at
    /// an out-of-range count.
    pub open spec fn well_formed(self) -> bool {
        &&& self.duty < 4
        &&& self.period <= 0x07FF
        &&& 1 <= self.timer <= 2048
        &&& self.step < 8
        &&& self.length.well_formed()
        &&& self.length.max == 64
        &&& self.sweep matches Some(s) ==> s.shadow <= 0x07FF
    }

    /// The channel's digital output, 0-15, before the DAC.
    pub open spec fn output_spec(self) -> u8 {
        if !self.enabled {
            0
        } else if (DUTY_PATTERNS@[self.duty as int] >> ((7 - self.step) as u8)) & 1 == 1 {
            self.envelope.volume
        } else {
            0
        }
    }

    pub open spec fn tick_spec(self) -> Square {
        if self.timer - 1 == 0 {
            Square { timer: (2048 - self.period) as u16, step: ((self.step + 1) % 8) as u8, ..self }
        } else {
            Square { timer: (self.timer - 1) as u16, ..self }
        }
    }

    pub open spec fn tick_length_spec(self) -> Square {
        let (length, expired) = self.length.tick_spec();
        Square {
            length,
            enabled: if expired {
                false
            } else {
                self.enabled
            },
            ..self
        }
    }

    pub open spec fn tick_sweep_spec(self) -> Square {
        match self.sweep {
            None => self,
            Some(sweep) => {
                let (sweep, period, overflowed) = sweep.tick_spec();
                Square {
                    sweep: Some(sweep),
                    period: match period {
                        Some(p) => p,
                        None => self.period,
                    },
                    enabled: if overflowed {
                        false
                    } else {
                        self.enabled
                    },
                    ..self
                }
            },
        }
    }

    pub open spec fn read_spec(self, register: u8) -> u8 {
        if register == 0 {
            match self.sweep {
                Some(s) => s.register,
                None => 0xFF,
            }
        } else if register == 1 {
            self.duty << 6u8
        } else if register == 2 {
            self.envelope.register
        } else if register == 4 {
            if self.length.enabled {
                0x40
            } else {
                0
            }
        } else {
            0xFF
        }
    }

    pub open spec fn trigger_spec(self, extra_length_clock: bool) -> Square {
        let sq = Square {
            enabled: self.envelope.dac_enabled_spec(),
            length: self.length.trigger_spec(extra_length_clock),
            envelope: self.envelope.trigger_spec(),
            timer: (2048 - self.period) as u16,
            ..self
        };
        match sq.sweep {
            Some(sweep) => {
                let (sweep, overflowed) = sweep.trigger_spec(self.period);
                Square {
                    sweep: Some(sweep),
                    enabled: if overflowed {
                        false
                    } else {
                        sq.enabled
                    },
                    ..sq
                }
            },
            None => sq,
        }
    }

    pub open spec fn write_spec(self, register: u8, value: u8, extra_length_clock: bool) -> Square {
        if register == 0 {
            match self.sweep {
                Some(sweep) => {
                    let (sweep, stop) = sweep.write_spec(value);
                    Square {
                        sweep: Some(sweep),
                        enabled: if stop {
                            false
                        } else {
                            self.enabled
                        },
                        ..self
                    }
                },
                None => self,
            }
        } else if register == 1 {
            Square {
                duty: value >> 6u8,
                length: self.length.set_spec((value & 0x3F) as u16),
                ..self
            }
        } else if register == 2 {
            let envelope = Envelope { register: value, ..self.envelope };
            Square {
                envelope,
                enabled: if !envelope.dac_enabled_spec() {
                    false
                } else {
                    self.enabled
                },
                ..self
            }
        } else if register == 3 {
            Square { period: (self.period & 0x0700) | (value as u16), ..self }
        } else if register == 4 {
            let now_enabled = value & 0x40 != 0;
            let sq = Square {
                period: (self.period & 0x00FF) | (((value as u16) & 0x07) << 8u16),
                length: LengthTimer { enabled: now_enabled, ..self.length },
                ..self
            };
            let (sq, expired) = if extra_length_clock && !self.length.enabled && now_enabled {
                let (length, expired) = sq.length.extra_clock_spec();
                (Square { length, ..sq }, expired)
            } else {
                (sq, false)
            };
            let sq = if expired && value & 0x80 == 0 {
                Square { enabled: false, ..sq }
            } else {
                sq
            };
            if value & 0x80 != 0 {
                sq.trigger_spec(extra_length_clock)
            } else {
                sq
            }
        } else {
            self
        }
    }

    /// A freshly powered-up channel: silent, period 0, length not counting.
    pub open spec fn initial(with_sweep: bool) -> Square {
        Square {
            duty: 0,
            period: 0,
            timer: 1,
            step: 0,
            length: LengthTimer { counter: 0, max: 64, enabled: false },
            envelope: Envelope { register: 0, volume: 0, timer: 0 },
            enabled: false,
            sweep: if with_sweep {
                Some(Sweep::powered_off())
            } else {
                None
            },
        }
    }

    /// NRx1's length field loaded on its own, leaving the duty alone.
    pub open spec fn write_length_spec(self, value: u8) -> Square {
        Square { length: self.length.set_spec((value & 0x3F) as u16), ..self }
    }

    /// One 64 Hz envelope clock.
    pub open spec fn tick_envelope_spec(self) -> Square {
        Square { envelope: self.envelope.tick_spec(), ..self }
    }

    /// Every register cleared by the APU's power switch. The length counter and the
    /// frequency timer survive; the duty step restarts.
    pub open spec fn power_off_spec(self) -> Square {
        Square {
            duty: 0,
            period: 0,
            enabled: false,
            length: LengthTimer { enabled: false, ..self.length },
            envelope: Envelope { register: 0, volume: 0, timer: 0 },
            sweep: match self.sweep {
                Some(_) => Some(Sweep::powered_off()),
                None => None,
            },
            step: 0,
            ..self
        }
    }

    pub fn new(with_sweep: bool) -> (r: Self)
        ensures
            r.well_formed(),
            r == Square::initial(with_sweep),
    {
        Square {
            duty: 0,
            period: 0,
            timer: 1,
            step: 0,
            length: LengthTimer::new(64),
            envelope: Envelope::new(),
            enabled: false,
            sweep: if with_sweep {
                Some(Sweep::new())
            } else {
                None
            },
        }
    }

    pub fn is_enabled(&self) -> (r: bool)
        ensures
            r == self.enabled,
    {
        self.enabled
    }

    pub fn dac_enabled(&self) -> (r: bool)
        ensures
            r == self.envelope.dac_enabled_spec(),
    {
        self.envelope.dac_enabled()
    }

    /// The channel's digital output, 0-15, before the DAC.
    pub fn output(&self) -> (r: u8)
        requires
            self.well_formed(),
        ensures
            r == self.output_spec(),
    {
        if !self.enabled {
            return 0;
        }
        let high = (DUTY_PATTERNS[self.duty as usize] >> (7 - self.step)) & 1;
        if high == 1 {
            self.envelope.volume()
        } else {
            0
        }
    }

    /// Advances the frequency timer by one M-cycle.
    pub fn tick(&mut self)
        requires
            old(self).well_formed(),
        ensures
            *final(self) == old(self).tick_spec(),
            final(self).well_formed(),
    {
        self.timer = self.timer - 1;
        if self.timer == 0 {
            // Reloading here rather than at the write is what makes a period change
            // take effect only after the sample in progress finishes.
            self.timer = 2048 - self.period;
            self.step = (self.step + 1) % 8;
        }
    }

    pub fn tick_length(&mut self)
        requires
            old(self).well_formed(),
        ensures
            *final(self) == old(self).tick_length_spec(),
            final(self).well_formed(),
    {
        if self.length.tick() {
            self.enabled = false;
        }
    }

    pub fn tick_envelope(&mut self)
        ensures
            *final(self) == old(self).tick_envelope_spec(),
    {
        self.envelope.tick();
    }

    /// Clocked at 128 Hz. Channel 2 has no sweep and ignores this.
    pub fn tick_sweep(&mut self)
        requires
            old(self).well_formed(),
        ensures
            *final(self) == old(self).tick_sweep_spec(),
            final(self).well_formed(),
    {
        let result = match &mut self.sweep {
            Some(sweep) => sweep.tick(),
            None => return,
        };
        // Write back before honouring the overflow: the period really does land in
        // NR13/NR14 even on the step that stops the channel.
        if let Some(period) = result.period {
            self.period = period;
        }
        if result.overflowed {
            self.enabled = false;
        }
    }

    pub fn read(&self, register: u8) -> (r: u8)
        ensures
            r == self.read_spec(register),
    {
        match register {
            0 => match &self.sweep {
                Some(sweep) => sweep.read(),
                None => 0xFF,
            },
            1 => self.duty << 6u8,
            2 => self.envelope.read(),
            // NRx3 is write-only; the period is not readable at all.
            3 => 0xFF,
            4 => if self.length.is_enabled() {
                0x40
            } else {
                0
            },
            _ => 0xFF,
        }
    }

    /// Loads just the length field. Usable with the APU powered off, unlike the rest
    /// of the register.
    pub fn write_length(&mut self, value: u8)
        requires
            old(self).well_formed(),
        ensures
            *final(self) == old(self).write_length_spec(value),
            final(self).well_formed(),
    {
        proof {
            super::lemma_register_fields(value);
        }
        self.length.set((value & 0x3F) as u16);
    }

    /// `extra_length_clock` says the sequencer's next step will *not* clock the length
    /// counters, which changes what a write to NRx4 does. The APU knows the phase; the
    /// channel does not, so it is passed in.
    pub fn write(&mut self, register: u8, value: u8, extra_length_clock: bool)
        requires
            old(self).well_formed(),
        ensures
            *final(self) == old(self).write_spec(register, value, extra_length_clock),
            final(self).well_formed(),
    {
        proof {
            lemma_period_bits(self.period, value);
            super::lemma_register_fields(value);
        }
        match register {
            0 => {
                let stop = match &mut self.sweep {
                    Some(sweep) => sweep.write(value),
                    None => false,
                };
                if stop {
                    // Clearing the direction bit after a subtracting calculation has
                    // happened kills the channel. The hardware has no way to undo a
                    // subtraction it has already applied, so it refuses to switch back.
                    self.enabled = false;
                }
            },
            1 => {
                self.duty = value >> 6u8;
                self.length.set((value & 0x3F) as u16);
            },
            2 => {
                self.envelope.write(value);
                // Cutting the DAC takes the channel with it, immediately.
                if !self.envelope.dac_enabled() {
                    self.enabled = false;
                }
            },
            3 => self.period = (self.period & 0x0700) | value as u16,
            4 => {
                self.period = (self.period & 0x00FF) | ((value as u16 & 0x07) << 8u16);
                let was_enabled = self.length.is_enabled();
                let now_enabled = value & 0x40 != 0;
                self.length.set_enabled(now_enabled);
                // Switching the length counter on mid-period costs it a tick. If that
                // is the tick that runs it out, the channel stops — unless this same
                // write is also a trigger, which is about to reload it anyway.
                if extra_length_clock && !was_enabled && now_enabled
                    && self.length.extra_clock() && value & 0x80 == 0 {
                    self.enabled = false;
                }
                if value & 0x80 != 0 {
                    self.trigger(extra_length_clock);
                }
            },
            _ => {},
        }
    }

    fn trigger(&mut self, extra_length_clock: bool)
        requires
            old(self).well_formed(),
        ensures
            *final(self) == old(self).trigger_spec(extra_length_clock),
            final(self).well_formed(),
    {
        // A trigger cannot start a channel whose DAC is off. Everything else about the
        // trigger still happens; only the enable is withheld.
        self.enabled = self.envelope.dac_enabled();
        self.length.trigger(extra_length_clock);
        self.envelope.trigger();
        self.timer = 2048 - self.period;
        let period = self.period;
        let overflowed = match &mut self.sweep {
            Some(sweep) => sweep.trigger(period),
            None => false,
        };
        if overflowed {
            // The immediate overflow check on trigger can shut the channel off before
            // it has produced a single sample.
            self.enabled = false;
        }
    }

    pub fn power_off(&mut self)
        requires
            old(self).well_formed(),
        ensures
            final(self).well_formed(),
            *final(self) == old(self).power_off_spec(),
    {
        self.duty = 0;
        self.period = 0;
        self.enabled = false;
        self.length.power_off();
        self.envelope.power_off();
        match &mut self.sweep {
            Some(sweep) => sweep.power_off(),
            None => {},
        }
        // The duty step resets with the power, which is why a freshly powered channel
        // always starts at the same point in its wave.
        self.step = 0;
    }

    /// The current step of the duty pattern.
    pub fn step(&self) -> (r: u8)
        ensures
            r == self.step,
    {
        self.step
    }

    /// The period NR13/NR14 hold.
    pub fn period(&self) -> (r: u16)
        ensures
            r == self.period,
    {
        self.period
    }
}

/// A channel's step advances once every `2048 - period` M-cycles: the timer counts
/// down one per tick, and the tick that empties it reloads it and moves the wave on.
pub proof fn lemma_timer_paces_the_wave(sq: Square)
    requires
        sq.well_formed(),
    ensures
        sq.tick_spec().well_formed(),
        sq.timer > 1 ==> sq.tick_spec().step == sq.step && sq.tick_spec().timer == sq.timer - 1,
        sq.timer == 1 ==> sq.tick_spec().step == (sq.step + 1) % 8 && sq.tick_spec().timer == 2048
            - sq.period,
{
}

} // verus!
