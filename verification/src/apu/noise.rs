//! Channel 4: white noise from a linear-feedback shift register.
//!
//! There is no wavetable and no oscillator. A 15-bit shift register is clocked, and the
//! bit that falls out the bottom decides whether the channel emits its volume or
//! silence. Feedback from the bottom two bits makes the sequence pseudo-random and very
//! long, so it sounds like noise rather than a tone.
//!
//! Switching the register to 7 bits shortens the sequence enough that the ear hears it
//! repeat — the result is a buzzy, metallic pitch rather than a hiss. That is a feature,
//! not a defect: it is how games get snare drums out of the same channel as cymbals.
use vstd::prelude::*;
use vstd::arithmetic::power2::pow2;
use super::units::{Envelope, LengthTimer};

verus! {

#[derive(Debug, Clone, Copy, PartialEq, Eq, Structural)]
pub struct Noise {
    /// NR43 as written. Kept whole so reads give it back exactly.
    pub control: u8,
    /// 15 bits of state. Reset to 0 on trigger, and the feedback fills it from there.
    pub lfsr: u16,
    /// Counts down in M-cycles to the next shift.
    pub timer: u32,
    pub length: LengthTimer,
    pub envelope: Envelope,
    pub enabled: bool,
}

/// The register after one shift: the XNOR of the bottom two bits enters at bit 14,
/// and in 7-bit mode also at bit 6.
pub open spec fn lfsr_step(lfsr: u16, short_mode: bool) -> u16 {
    let feedback = ((lfsr ^ (lfsr >> 1u16)) & 1) ^ 1;
    let shifted = (lfsr >> 1u16) | (feedback << 14u16);
    if short_mode {
        (shifted & !0x0040u16) | (feedback << 6u16)
    } else {
        shifted
    }
}

impl Noise {
    pub open spec fn well_formed(self) -> bool {
        &&& self.timer >= 1
        &&& self.length.well_formed()
        &&& self.length.max == 64
    }

    pub open spec fn shift_spec(self) -> u8 {
        self.control >> 4u8
    }

    pub open spec fn short_mode_spec(self) -> bool {
        self.control & 0x08 != 0
    }

    pub open spec fn divider_spec(self) -> u8 {
        self.control & 0x07
    }

    /// M-cycles between shifts: 4 per divider step (a divider of 0 counting as a half),
    /// doubled for each step of the shift.
    pub open spec fn period_spec(self) -> int {
        let base: int = if self.divider_spec() == 0 {
            2
        } else {
            4 * self.divider_spec()
        };
        base * pow2(self.shift_spec() as nat)
    }

    pub open spec fn output_spec(self) -> u8 {
        if !self.enabled {
            0
        } else if self.lfsr & 1 == 0 {
            self.envelope.volume
        } else {
            0
        }
    }

    pub open spec fn tick_spec(self) -> Noise {
        if self.shift_spec() >= 14 {
            self
        } else if self.timer - 1 != 0 {
            Noise { timer: (self.timer - 1) as u32, ..self }
        } else {
            Noise {
                timer: self.period_spec() as u32,
                lfsr: lfsr_step(self.lfsr, self.short_mode_spec()),
                ..self
            }
        }
    }

    pub open spec fn tick_length_spec(self) -> Noise {
        let (length, expired) = self.length.tick_spec();
        Noise {
            length,
            enabled: if expired {
                false
            } else {
                self.enabled
            },
            ..self
        }
    }

    pub open spec fn read_spec(self, register: u8) -> u8 {
        if register == 2 {
            self.envelope.register
        } else if register == 3 {
            self.control
        } else if register == 4 {
            if self.length.enabled {
                0x40
            } else {
                0
            }
        } else {
            0xFF
        }
    }

    pub open spec fn trigger_spec(self, extra_length_clock: bool) -> Noise {
        Noise {
            enabled: self.envelope.dac_enabled_spec(),
            length: self.length.trigger_spec(extra_length_clock),
            envelope: self.envelope.trigger_spec(),
            timer: self.period_spec() as u32,
            lfsr: 0,
            ..self
        }
    }

    pub open spec fn write_spec(self, register: u8, value: u8, extra_length_clock: bool) -> Noise {
        if register == 1 {
            Noise { length: self.length.set_spec((value & 0x3F) as u16), ..self }
        } else if register == 2 {
            let envelope = Envelope { register: value, ..self.envelope };
            Noise {
                envelope,
                enabled: if !envelope.dac_enabled_spec() {
                    false
                } else {
                    self.enabled
                },
                ..self
            }
        } else if register == 3 {
            Noise { control: value, ..self }
        } else if register == 4 {
            let now_enabled = value & 0x40 != 0;
            let n = Noise { length: LengthTimer { enabled: now_enabled, ..self.length }, ..self };
            let (n, expired) = if extra_length_clock && !self.length.enabled && now_enabled {
                let (length, expired) = n.length.extra_clock_spec();
                (Noise { length, ..n }, expired)
            } else {
                (n, false)
            };
            let n = if expired && value & 0x80 == 0 {
                Noise { enabled: false, ..n }
            } else {
                n
            };
            if value & 0x80 != 0 {
                n.trigger_spec(extra_length_clock)
            } else {
                n
            }
        } else {
            self
        }
    }

    /// A freshly powered-up channel.
    pub open spec fn initial() -> Noise {
        Noise {
            control: 0,
            lfsr: 0,
            timer: 1,
            length: LengthTimer { counter: 0, max: 64, enabled: false },
            envelope: Envelope { register: 0, volume: 0, timer: 0 },
            enabled: false,
        }
    }

    /// NR41's length field loaded on its own.
    pub open spec fn write_length_spec(self, value: u8) -> Noise {
        Noise { length: self.length.set_spec((value & 0x3F) as u16), ..self }
    }

    /// One 64 Hz envelope clock.
    pub open spec fn tick_envelope_spec(self) -> Noise {
        Noise { envelope: self.envelope.tick_spec(), ..self }
    }

    /// Every register cleared by the APU's power switch; the length counter survives.
    pub open spec fn power_off_spec(self) -> Noise {
        Noise {
            control: 0,
            lfsr: 0,
            enabled: false,
            length: LengthTimer { enabled: false, ..self.length },
            envelope: Envelope { register: 0, volume: 0, timer: 0 },
            ..self
        }
    }

    pub fn new() -> (r: Self)
        ensures
            r.well_formed(),
            r == Noise::initial(),
    {
        Noise {
            control: 0,
            lfsr: 0,
            timer: 1,
            length: LengthTimer::new(64),
            envelope: Envelope::new(),
            enabled: false,
        }
    }

    pub fn is_enabled(&self) -> (r: bool)
        ensures
            r == self.enabled,
    {
        self.enabled
    }

    pub fn dac_enabled(&self) -> (r: bool)
        ensures
            r == self.envelope.dac_enabled_spec(),
    {
        self.envelope.dac_enabled()
    }

    pub fn output(&self) -> (r: u8)
        ensures
            r == self.output_spec(),
    {
        if !self.enabled {
            return 0;
        }
        // Bit 0 is the bit about to fall out. A 1 means silence — the sense is
        // inverted, which is why a freshly triggered (all-zero) register starts loud.
        if self.lfsr & 1 == 0 {
            self.envelope.volume()
        } else {
            0
        }
    }

    fn shift(&self) -> (r: u8)
        ensures
            r == self.shift_spec(),
            r < 16,
    {
        proof {
            super::lemma_register_fields(self.control);
        }
        self.control >> 4u8
    }

    fn short_mode(&self) -> (r: bool)
        ensures
            r == self.short_mode_spec(),
    {
        self.control & 0x08 != 0
    }

    fn divider(&self) -> (r: u8)
        ensures
            r == self.divider_spec(),
            r < 8,
    {
        proof {
            super::lemma_register_fields(self.control);
        }
        self.control & 0x07
    }

    /// How many M-cycles between shifts.
    ///
    /// The LFSR is clocked at 262144 / (divider x 2^shift) Hz, and the M-cycle clock is
    /// 1048576 Hz, so the base period is 4 M-cycles. A divider of 0 means one *half*,
    /// giving 2.
    pub fn period(&self) -> (r: u32)
        ensures
            r == self.period_spec(),
            r >= 2,
    {
        let base: u32 = if self.divider() == 0 {
            2
        } else {
            self.divider() as u32 * 4
        };
        let shift = self.shift();
        proof {
            vstd::arithmetic::power2::lemma2_to64();
            if shift < 15 {
                vstd::arithmetic::power2::lemma_pow2_strictly_increases(shift as nat, 15);
            }
            vstd::arithmetic::power2::lemma_pow2_pos(shift as nat);
            let p = pow2(shift as nat);
            assert(base * p <= 28 * 32768 && base * p >= 2) by (nonlinear_arith)
                requires
                    2 <= base <= 28,
                    1 <= p <= 32768,
            ;
            vstd::bits::lemma_u32_shl_is_mul(base, shift as u32);
        }
        base << (shift as u32)
    }

    pub fn tick(&mut self)
        requires
            old(self).well_formed(),
        ensures
            *final(self) == old(self).tick_spec(),
            final(self).well_formed(),
    {
        // Shifts of 14 and 15 stop the register being clocked at all — the channel
        // freezes on whatever bit it last shifted out rather than going silent.
        if self.shift() >= 14 {
            return;
        }
        self.timer = self.timer - 1;
        if self.timer != 0 {
            return;
        }
        self.timer = self.period();
        // The new bit is the XNOR of the bottom two: 1 when they agree.
        let feedback = ((self.lfsr ^ (self.lfsr >> 1u16)) & 1) ^ 1;
        self.lfsr = (self.lfsr >> 1u16) | (feedback << 14u16);
        if self.short_mode() {
            // In 7-bit mode the feedback is also written to bit 6, which folds the
            // sequence down to 127 steps.
            self.lfsr = (self.lfsr & !0x0040u16) | (feedback << 6u16);
        }
    }

    pub fn tick_length(&mut self)
        requires
            old(self).well_formed(),
        ensures
            *final(self) == old(self).tick_length_spec(),
            final(self).well_formed(),
    {
        if self.length.tick() {
            self.enabled = false;
        }
    }

    pub fn tick_envelope(&mut self)
        ensures
            *final(self) == old(self).tick_envelope_spec(),
    {
        self.envelope.tick();
    }

    pub fn read(&self, register: u8) -> (r: u8)
        ensures
            r == self.read_spec(register),
    {
        match register {
            // NR40 does not exist, and NR41's length is write-only.
            0 | 1 => 0xFF,
            2 => self.envelope.read(),
            3 => self.control,
            4 => if self.length.is_enabled() {
                0x40
            } else {
                0
            },
            _ => 0xFF,
        }
    }

    /// Loads just the length field.
    pub fn write_length(&mut self, value: u8)
        requires
            old(self).well_formed(),
        ensures
            *final(self) == old(self).write_length_spec(value),
            final(self).well_formed(),
    {
        proof {
            super::lemma_register_fields(value);
        }
        self.length.set((value & 0x3F) as u16);
    }

    pub fn write(&mut self, register: u8, value: u8, extra_length_clock: bool)
        requires
            old(self).well_formed(),
        ensures
            *final(self) == old(self).write_spec(register, value, extra_length_clock),
            final(self).well_formed(),
    {
        proof {
            super::lemma_register_fields(value);
        }
        match register {
            1 => self.length.set((value & 0x3F) as u16),
            2 => {
                self.envelope.write(value);
                if !self.envelope.dac_enabled() {
                    self.enabled = false;
                }
            },
            3 => self.control = value,
            4 => {
                let was_enabled = self.length.is_enabled();
                let now_enabled = value & 0x40 != 0;
                self.length.set_enabled(now_enabled);
                if extra_length_clock && !was_enabled && now_enabled
                    && self.length.extra_clock() && value & 0x80 == 0 {
                    self.enabled = false;
                }
                if value & 0x80 != 0 {
                    self.trigger(extra_length_clock);
                }
            },
            _ => {},
        }
    }

    fn trigger(&mut self, extra_length_clock: bool)
        requires
            old(self).well_formed(),
        ensures
            *final(self) == old(self).trigger_spec(extra_length_clock),
            final(self).well_formed(),
    {
        self.enabled = self.envelope.dac_enabled();
        self.length.trigger(extra_length_clock);
        self.envelope.trigger();
        self.timer = self.period();
        // Clearing the register is what makes a retrigger sound identical every time,
        // and what rescues a register that has locked up in short mode.
        self.lfsr = 0;
    }

    pub fn power_off(&mut self)
        ensures
            *final(self) == old(self).power_off_spec(),
    {
        self.control = 0;
        self.lfsr = 0;
        self.enabled = false;
        self.length.power_off();
        self.envelope.power_off();
    }
}

/// A freshly triggered channel starts loud: the register is cleared, and a clear bit 0
/// means "emit the volume".
pub proof fn lemma_trigger_starts_loud(n: Noise, extra_length_clock: bool)
    requires
        n.envelope.dac_enabled_spec(),
    ensures
        n.trigger_spec(extra_length_clock).output_spec() == n.envelope.register >> 4u8,
{
    assert(0u16 & 1 == 0) by (bit_vector);
}

/// Shifts of 14 and 15 freeze the register: ticks change nothing.
pub proof fn lemma_high_shift_freezes(n: Noise)
    requires
        n.shift_spec() >= 14,
    ensures
        n.tick_spec() == n,
{
}

} // verus!
