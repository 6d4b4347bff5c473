//! Channel 3: plays back 32 four-bit samples from wave RAM.
//!
//! The only channel that can make an arbitrary waveform, and the only one with no
//! envelope — its volume control is three coarse steps plus mute, implemented by
//! *shifting the digital sample right* rather than by scaling an analog level.
//!
//! Its period divider runs at 2097152 Hz, twice the pulse channels' rate, and its
//! waveform is 32 samples rather than 8. Same period value, two octaves lower.
use vstd::prelude::*;
use super::units::LengthTimer;
use super::lemma_period_bits;

verus! {

/// Wave RAM: 16 bytes, two 4-bit samples each, high nibble first.
pub const WAVE_RAM_SIZE: usize = 16;

#[derive(Debug, Clone, Copy, PartialEq, Eq)]
pub struct Wave {
    /// NR30 bit 7. Unlike the other channels, the DAC here has its own switch instead
    /// of being inferred from the volume register.
    pub dac_enabled: bool,
    /// NR32 bits 6-5: 0 mutes, 1 is full volume, 2 and 3 shift right once and twice.
    pub output_level: u8,
    pub period: u16,
    /// Counts down at 2097152 Hz — two ticks per M-cycle.
    pub timer: u16,
    /// Which of the 32 nibbles is next.
    pub index: u8,
    /// The last nibble read. The channel emits *this*, continuously, rather than
    /// reading wave RAM on demand — which is why triggering the channel replays the
    /// previous sample until the next read comes around.
    pub sample_buffer: u8,
    pub length: LengthTimer,
    pub enabled: bool,
    pub ram: [u8; 16],
}

/// Sample `index` of wave RAM: bytes hold two samples, high nibble first.
pub open spec fn wave_sample(ram: Seq<u8>, index: int) -> u8 {
    let byte = ram[index / 2];
    if index % 2 == 0 {
        byte >> 4u8
    } else {
        byte & 0x0F
    }
}

impl Wave {
    pub open spec fn well_formed(self) -> bool {
        &&& self.output_level < 4
        &&& self.period <= 0x07FF
        &&& 1 <= self.timer <= 2048
        &&& self.index < 32
        &&& self.length.well_formed()
        &&& self.length.max == 256
    }

    pub open spec fn output_spec(self) -> u8 {
        if !self.enabled || self.output_level == 0 {
            0
        } else {
            self.sample_buffer >> ((self.output_level - 1) as u8)
        }
    }

    pub open spec fn tick_spec(self) -> Wave {
        if self.timer - 1 != 0 {
            Wave { timer: (self.timer - 1) as u16, ..self }
        } else {
            let index = (self.index + 1) % 32;
            Wave {
                timer: (2048 - self.period) as u16,
                index: index as u8,
                sample_buffer: wave_sample(self.ram@, index),
                ..self
            }
        }
    }

    pub open spec fn tick_length_spec(self) -> Wave {
        let (length, expired) = self.length.tick_spec();
        Wave {
            length,
            enabled: if expired {
                false
            } else {
                self.enabled
            },
            ..self
        }
    }

    pub open spec fn read_spec(self, register: u8) -> u8 {
        if register == 0 {
            if self.dac_enabled {
                0x80
            } else {
                0
            }
        } else if register == 2 {
            self.output_level << 5u8
        } else if register == 4 {
            if self.length.enabled {
                0x40
            } else {
                0
            }
        } else {
            0xFF
        }
    }

    pub open spec fn trigger_spec(self, extra_length_clock: bool) -> Wave {
        Wave {
            enabled: self.dac_enabled,
            length: self.length.trigger_spec(extra_length_clock),
            timer: (2048 - self.period) as u16,
            index: 0,
            ..self
        }
    }

    pub open spec fn write_spec(self, register: u8, value: u8, extra_length_clock: bool) -> Wave {
        if register == 0 {
            let dac = value & 0x80 != 0;
            Wave {
                dac_enabled: dac,
                enabled: if !dac {
                    false
                } else {
                    self.enabled
                },
                ..self
            }
        } else if register == 1 {
            Wave { length: self.length.set_spec(value as u16), ..self }
        } else if register == 2 {
            Wave { output_level: (value >> 5u8) & 0x03, ..self }
        } else if register == 3 {
            Wave { period: (self.period & 0x0700) | (value as u16), ..self }
        } else if register == 4 {
            let now_enabled = value & 0x40 != 0;
            let w = Wave {
                period: (self.period & 0x00FF) | (((value as u16) & 0x07) << 8u16),
                length: LengthTimer { enabled: now_enabled, ..self.length },
                ..self
            };
            let (w, expired) = if extra_length_clock && !self.length.enabled && now_enabled {
                let (length, expired) = w.length.extra_clock_spec();
                (Wave { length, ..w }, expired)
            } else {
                (w, false)
            };
            let w = if expired && value & 0x80 == 0 {
                Wave { enabled: false, ..w }
            } else {
                w
            };
            if value & 0x80 != 0 {
                w.trigger_spec(extra_length_clock)
            } else {
                w
            }
        } else {
            self
        }
    }

    /// NR31 loaded on its own.
    pub open spec fn write_length_spec(self, value: u8) -> Wave {
        Wave { length: self.length.set_spec(value as u16), ..self }
    }

    /// Every register cleared by the APU's power switch. Wave RAM and the length
    /// counter survive.
    pub open spec fn power_off_spec(self) -> Wave {
        Wave {
            dac_enabled: false,
            output_level: 0,
            period: 0,
            index: 0,
            enabled: false,
            length: LengthTimer { enabled: false, ..self.length },
            sample_buffer: 0,
            ..self
        }
    }

    /// A freshly powered-up channel, with wave RAM zeroed.
    pub open spec fn initial() -> Wave {
        Wave {
            dac_enabled: false,
            output_level: 0,
            period: 0,
            timer: 1,
            index: 0,
            sample_buffer: 0,
            length: LengthTimer { counter: 0, max: 256, enabled: false },
            enabled: false,
            ram: vstd::array::spec_array_fill_for_copy_type::<u8, 16>(0u8),
        }
    }

    pub fn new() -> (r: Self)
        ensures
            r.well_formed(),
            r == Wave::initial(),
            forall|i: int| 0 <= i < 16 ==> r.ram@[i] == 0,
    {
        Wave {
            dac_enabled: false,
            output_level: 0,
            period: 0,
            timer: 1,
            index: 0,
            sample_buffer: 0,
            // 256 rather than 64: NR31 is a full byte, so this channel can hold a note
            // four times as long as the others.
            length: LengthTimer::new(256),
            enabled: false,
            ram: [0; 16],
        }
    }

    pub fn is_enabled(&self) -> (r: bool)
        ensures
            r == self.enabled,
    {
        self.enabled
    }

    pub fn dac_enabled(&self) -> (r: bool)
        ensures
            r == self.dac_enabled,
    {
        self.dac_enabled
    }

    pub fn output(&self) -> (r: u8)
        requires
            self.well_formed(),
        ensures
            r == self.output_spec(),
    {
        if !self.enabled || self.output_level == 0 {
            return 0;
        }
        self.sample_buffer >> (self.output_level - 1)
    }

    /// Advances the divider by one of its own ticks; the APU calls this twice per
    /// M-cycle.
    pub fn tick(&mut self)
        requires
            old(self).well_formed(),
        ensures
            *final(self) == old(self).tick_spec(),
            final(self).well_formed(),
    {
        self.timer = self.timer - 1;
        if self.timer != 0 {
            return;
        }
        self.timer = 2048 - self.period;
        // Advance first, then read: this is why sample 0 is skipped when the channel
        // starts and the first nibble heard is index 1.
        self.index = (self.index + 1) % 32;
        let byte = self.ram[self.index as usize / 2];
        self.sample_buffer = if self.index % 2 == 0 {
            byte >> 4u8
        } else {
            byte & 0x0F
        };
    }

    pub fn tick_length(&mut self)
        requires
            old(self).well_formed(),
        ensures
            *final(self) == old(self).tick_length_spec(),
            final(self).well_formed(),
    {
        if self.length.tick() {
            self.enabled = false;
        }
    }

    pub fn read(&self, register: u8) -> (r: u8)
        ensures
            r == self.read_spec(register),
    {
        match register {
            0 => if self.dac_enabled {
                0x80
            } else {
                0
            },
            // NR31 is write-only.
            1 => 0xFF,
            2 => self.output_level << 5u8,
            3 => 0xFF,
            4 => if self.length.is_enabled() {
                0x40
            } else {
                0
            },
            _ => 0xFF,
        }
    }

    /// Loads just the length field.
    pub fn write_length(&mut self, value: u8)
        requires
            old(self).well_formed(),
        ensures
            *final(self) == old(self).write_length_spec(value),
            final(self).well_formed(),
    {
        self.length.set(value as u16);
    }

    pub fn write(&mut self, register: u8, value: u8, extra_length_clock: bool)
        requires
            old(self).well_formed(),
        ensures
            *final(self) == old(self).write_spec(register, value, extra_length_clock),
            final(self).well_formed(),
    {
        proof {
            lemma_period_bits(self.period, value);
            assert((value >> 5u8) & 0x03 < 4) by (bit_vector);
        }
        match register {
            0 => {
                self.dac_enabled = value & 0x80 != 0;
                if !self.dac_enabled {
                    self.enabled = false;
                }
            },
            1 => self.length.set(value as u16),
            2 => self.output_level = (value >> 5u8) & 0x03,
            3 => self.period = (self.period & 0x0700) | value as u16,
            4 => {
                self.period = (self.period & 0x00FF) | ((value as u16 & 0x07) << 8u16);
                let was_enabled = self.length.is_enabled();
                let now_enabled = value & 0x40 != 0;
                self.length.set_enabled(now_enabled);
                if extra_length_clock && !was_enabled && now_enabled
                    && self.length.extra_clock() && value & 0x80 == 0 {
                    self.enabled = false;
                }
                if value & 0x80 != 0 {
                    self.trigger(extra_length_clock);
                }
            },
            _ => {},
        }
    }

    fn trigger(&mut self, extra_length_clock: bool)
        requires
            old(self).well_formed(),
        ensures
            *final(self) == old(self).trigger_spec(extra_length_clock),
            final(self).well_formed(),
    {
        self.enabled = self.dac_enabled;
        self.length.trigger(extra_length_clock);
        self.timer = 2048 - self.period;
        // The index resets but the sample buffer deliberately does not: the channel
        // keeps emitting the stale sample until the divider next fires.
        self.index = 0;
    }

    /// Whether the CPU may touch wave RAM right now.
    ///
    /// While the channel is playing it has the RAM to itself, so the CPU's reads return
    /// open bus and its writes are dropped. This is why games switch the DAC off before
    /// loading a new waveform.
    pub fn ram_accessible(&self) -> (r: bool)
        ensures
            r == !self.enabled,
    {
        !self.enabled
    }

    pub fn power_off(&mut self)
        ensures
            *final(self) == old(self).power_off_spec(),
    {
        self.dac_enabled = false;
        self.output_level = 0;
        self.period = 0;
        self.index = 0;
        self.enabled = false;
        self.length.power_off();
        // Cleared on power-off, so a freshly powered channel emits silence rather than
        // whatever the last song left behind. Wave RAM itself survives.
        self.sample_buffer = 0;
    }
}

/// The wave repeats after 32 samples: the index walks 0-31 and wraps, and each step
/// plays the sample at the new index.
pub proof fn lemma_wave_cycles(w: Wave)
    requires
        w.well_formed(),
        w.timer == 1,
    ensures
        w.tick_spec().index == (w.index + 1) % 32,
        w.tick_spec().sample_buffer == wave_sample(w.ram@, (w.index + 1) % 32),
        w.tick_spec().well_formed(),
{
}

} // verus!
