//! The APU's digital side: four channels, the register file that drives them, and the
//! counters that clock them.
//!
//! Each channel has a frequency timer counting down to its next sample, and slower
//! counters — length, envelope, sweep — clocked by a shared 512 Hz sequencer.
//!
//! # The DIV-APU sequencer
//!
//! The 512 Hz clock is bit 4 of the timer's `DIV` register going from 1 to 0. Writing
//! `DIV` resets it, so if bit 4 was set the write manufactures a falling edge and steps
//! the sequencer early; because the APU watches DIV rather than counting for itself,
//! that comes for free.
//!
//! | Sequencer step | 0 | 1 | 2 | 3 | 4 | 5 | 6 | 7 |
//! |---|---|---|---|---|---|---|---|---|
//! | Length (256 Hz) | x | | x | | x | | x | |
//! | Sweep (128 Hz) | | | x | | | | x | |
//! | Envelope (64 Hz) | | | | | | | | x |
//!
//! # Where this stops
//!
//! Each channel's output is an integer from 0 to 15, and [`Apu::dac_inputs`] hands
//! the four of them out with their DAC switches; [`Apu::panning`] and
//! [`Apu::master_volume`] say where each goes and how loud each side is, and
//! [`queue`] holds finished samples for the host. Turning the levels into sound — the
//! DACs, the mixing itself, the high-pass filter and resampling to the host's rate —
//! is floating-point signal processing and lives outside this crate.
pub mod units;
pub mod square;
pub mod noise;
pub mod wave;
pub mod queue;

use vstd::prelude::*;
use noise::Noise;
use square::Square;
use wave::Wave;

verus! {

/// What each register in 0xFF10-0xFF26 reads back as, ORed over the stored value.
///
/// Write-only fields read as ones, because nothing drives those bus lines.
pub const READ_MASKS: [u8; 23] = [
    0x80, 0x3F, 0x00, 0xFF, 0xBF, // NR10-NR14
    0xFF, 0x3F, 0x00, 0xFF, 0xBF, // NR20-NR24 (NR20 does not exist)
    0x7F, 0xFF, 0x9F, 0xFF, 0xBF, // NR30-NR34
    0xFF, 0xFF, 0x00, 0x00, 0xBF, // NR40-NR44 (NR40 does not exist)
    0x00, 0x00, 0x70, // NR50-NR52
];

/// The sound hardware, up to the DACs.
pub struct Apu {
    pub channel1: Square,
    pub channel2: Square,
    pub channel3: Wave,
    pub channel4: Noise,
    /// NR50: master volume per side, plus the VIN bits no cartridge ever used.
    pub nr50: u8,
    /// NR51: which channels reach which side.
    pub nr51: u8,
    /// NR52 bit 7. While clear, every other register is zeroed and read-only.
    pub powered: bool,
    /// Sequencer step, 0-7.
    pub sequencer_step: u8,
    /// Last seen state of DIV bit 4, for the falling-edge detector.
    pub previous_div_bit: bool,
}

/// One bit of NR52's status nibble.
pub open spec fn flag(on: bool, bit: u8) -> u8 {
    if on {
        bit
    } else {
        0
    }
}

impl Apu {
    pub open spec fn well_formed(self) -> bool {
        &&& self.channel1.well_formed()
        &&& self.channel2.well_formed()
        &&& self.channel3.well_formed()
        &&& self.channel4.well_formed()
        &&& self.channel1.sweep is Some
        &&& self.channel2.sweep is None
        &&& self.sequencer_step < 8
    }

    /// NR52: the power bit and, read-only below it, which generators are running.
    pub open spec fn nr52_spec(self) -> u8 {
        (flag(self.powered, 0x80) + flag(self.channel4.enabled, 0x08) + flag(
            self.channel3.enabled,
            0x04,
        ) + flag(self.channel2.enabled, 0x02) + flag(self.channel1.enabled, 0x01)) as u8
    }

    /// The stored value behind a register in 0xFF10-0xFF26, before the read mask.
    pub open spec fn register_spec(self, address: u16) -> u8 {
        if address <= 0xFF14 {
            self.channel1.read_spec((address - 0xFF10) as u8)
        } else if address <= 0xFF19 {
            self.channel2.read_spec((address - 0xFF15) as u8)
        } else if address <= 0xFF1E {
            self.channel3.read_spec((address - 0xFF1A) as u8)
        } else if address <= 0xFF23 {
            self.channel4.read_spec((address - 0xFF1F) as u8)
        } else if address == 0xFF24 {
            self.nr50
        } else if address == 0xFF25 {
            self.nr51
        } else {
            self.nr52_spec()
        }
    }

    /// What the CPU reads at `address`.
    pub open spec fn read_spec(self, address: u16) -> u8 {
        if 0xFF10 <= address <= 0xFF26 {
            self.register_spec(address) | READ_MASKS@[address - 0xFF10]
        } else if 0xFF30 <= address <= 0xFF3F && !self.channel3.enabled {
            self.channel3.ram@[address - 0xFF30]
        } else {
            0xFF
        }
    }

    /// Whether the sequencer's next step will skip the length counters.
    pub open spec fn extra_length_clock_spec(self) -> bool {
        self.sequencer_step % 2 != 0
    }

    /// One 512 Hz step: the counter always advances; the units it clocks only run
    /// with the power on.
    pub open spec fn step_sequencer_spec(self) -> Apu {
        let step = self.sequencer_step;
        let next = Apu { sequencer_step: ((step + 1) % 8) as u8, ..self };
        if !self.powered {
            next
        } else {
            let a = if step % 2 == 0 {
                Apu {
                    channel1: next.channel1.tick_length_spec(),
                    channel2: next.channel2.tick_length_spec(),
                    channel3: next.channel3.tick_length_spec(),
                    channel4: next.channel4.tick_length_spec(),
                    ..next
                }
            } else {
                next
            };
            let b = if step == 2 || step == 6 {
                Apu { channel1: a.channel1.tick_sweep_spec(), ..a }
            } else {
                a
            };
            if step == 7 {
                Apu {
                    channel1: b.channel1.tick_envelope_spec(),
                    channel2: b.channel2.tick_envelope_spec(),
                    channel4: b.channel4.tick_envelope_spec(),
                    ..b
                }
            } else {
                b
            }
        }
    }

    /// One M-cycle, given the timer's DIV.
    pub open spec fn tick_spec(self, div: u8) -> Apu {
        let div_bit = div & 0x10 != 0;
        let a = if self.previous_div_bit && !div_bit {
            self.step_sequencer_spec()
        } else {
            self
        };
        let a = Apu { previous_div_bit: div_bit, ..a };
        if a.powered {
            Apu {
                channel1: a.channel1.tick_spec(),
                channel2: a.channel2.tick_spec(),
                channel3: a.channel3.tick_spec().tick_spec(),
                channel4: a.channel4.tick_spec(),
                ..a
            }
        } else {
            a
        }
    }

    /// NR52 bit 7 written: powering off wipes every register but wave RAM and the
    /// length counters; powering on restarts the sequencer's count.
    pub open spec fn set_power_spec(self, on: bool) -> Apu {
        if self.powered == on {
            self
        } else if !on {
            Apu {
                powered: false,
                channel1: self.channel1.power_off_spec(),
                channel2: self.channel2.power_off_spec(),
                channel3: self.channel3.power_off_spec(),
                channel4: self.channel4.power_off_spec(),
                nr50: 0,
                nr51: 0,
                ..self
            }
        } else {
            Apu { powered: true, sequencer_step: 0, ..self }
        }
    }

    /// The APU after the CPU writes `value` to `address`.
    pub open spec fn write_spec(self, address: u16, value: u8) -> Apu {
        if 0xFF30 <= address <= 0xFF3F {
            if !self.channel3.enabled {
                Apu {
                    channel3: Wave {
                        ram: vstd::array::spec_array_update(
                            self.channel3.ram,
                            address - 0xFF30,
                            value,
                        ),
                        ..self.channel3
                    },
                    ..self
                }
            } else {
                self
            }
        } else if !self.powered {
            if address == 0xFF11 {
                Apu { channel1: self.channel1.write_length_spec(value), ..self }
            } else if address == 0xFF16 {
                Apu { channel2: self.channel2.write_length_spec(value), ..self }
            } else if address == 0xFF1B {
                Apu { channel3: self.channel3.write_length_spec(value), ..self }
            } else if address == 0xFF20 {
                Apu { channel4: self.channel4.write_length_spec(value), ..self }
            } else if address == 0xFF26 {
                self.set_power_spec(value & 0x80 != 0)
            } else {
                self
            }
        } else {
            let extra = self.extra_length_clock_spec();
            if 0xFF10 <= address <= 0xFF14 {
                Apu {
                    channel1: self.channel1.write_spec((address - 0xFF10) as u8, value, extra),
                    ..self
                }
            } else if 0xFF15 <= address <= 0xFF19 {
                Apu {
                    channel2: self.channel2.write_spec((address - 0xFF15) as u8, value, extra),
                    ..self
                }
            } else if 0xFF1A <= address <= 0xFF1E {
                Apu {
                    channel3: self.channel3.write_spec((address - 0xFF1A) as u8, value, extra),
                    ..self
                }
            } else if 0xFF1F <= address <= 0xFF23 {
                Apu {
                    channel4: self.channel4.write_spec((address - 0xFF1F) as u8, value, extra),
                    ..self
                }
            } else if address == 0xFF24 {
                Apu { nr50: value, ..self }
            } else if address == 0xFF25 {
                Apu { nr51: value, ..self }
            } else if address == 0xFF26 {
                self.set_power_spec(value & 0x80 != 0)
            } else {
                self
            }
        }
    }

    /// Powered off, silent, wave RAM zeroed, the sequencer at step 0.
    pub open spec fn initial() -> Apu {
        Apu {
            channel1: Square::initial(true),
            channel2: Square::initial(false),
            channel3: Wave::initial(),
            channel4: Noise::initial(),
            nr50: 0,
            nr51: 0,
            powered: false,
            sequencer_step: 0,
            previous_div_bit: false,
        }
    }

    pub fn new() -> (r: Self)
        ensures
            r.well_formed(),
            r == Apu::initial(),
    {
        Apu {
            channel1: Square::new(true),
            channel2: Square::new(false),
            channel3: Wave::new(),
            channel4: Noise::new(),
            nr50: 0,
            nr51: 0,
            powered: false,
            sequencer_step: 0,
            previous_div_bit: false,
        }
    }

    fn read_nr52(&self) -> (r: u8)
        ensures
            r == self.nr52_spec(),
    {
        // The low four bits report the generators, not the DACs, and are read-only:
        // writing them does not start or stop anything.
        let mut value: u8 = 0;
        if self.powered {
            value = value + 0x80;
        }
        if self.channel4.is_enabled() {
            value = value + 0x08;
        }
        if self.channel3.is_enabled() {
            value = value + 0x04;
        }
        if self.channel2.is_enabled() {
            value = value + 0x02;
        }
        if self.channel1.is_enabled() {
            value = value + 0x01;
        }
        value
    }

    pub fn read(&self, address: u16) -> (r: u8)
        ensures
            r == self.read_spec(address),
    {
        if 0xFF10 <= address && address <= 0xFF26 {
            let value = if address <= 0xFF14 {
                self.channel1.read((address - 0xFF10) as u8)
            } else if address <= 0xFF19 {
                self.channel2.read((address - 0xFF15) as u8)
            } else if address <= 0xFF1E {
                self.channel3.read((address - 0xFF1A) as u8)
            } else if address <= 0xFF23 {
                self.channel4.read((address - 0xFF1F) as u8)
            } else if address == 0xFF24 {
                self.nr50
            } else if address == 0xFF25 {
                self.nr51
            } else {
                self.read_nr52()
            };
            value | READ_MASKS[(address - 0xFF10) as usize]
        } else if 0xFF30 <= address && address <= 0xFF3F && self.channel3.ram_accessible() {
            // Wave RAM is readable with the APU powered off — it is just memory, and
            // games use it as scratch space. It is only locked while CH3 plays.
            self.channel3.ram[(address - 0xFF30) as usize]
        } else {
            0xFF
        }
    }

    fn extra_length_clock(&self) -> (r: bool)
        ensures
            r == self.extra_length_clock_spec(),
    {
        self.sequencer_step % 2 != 0
    }

    fn step_sequencer(&mut self)
        requires
            old(self).well_formed(),
        ensures
            *final(self) == old(self).step_sequencer_spec(),
            final(self).well_formed(),
    {
        // The step advances whether or not the APU is powered, because there is no
        // separate counter to stop — it is derived from DIV, and DIV keeps running.
        let step = self.sequencer_step;
        self.sequencer_step = (step + 1) % 8;
        if !self.powered {
            return;
        }
        if step % 2 == 0 {
            self.channel1.tick_length();
            self.channel2.tick_length();
            self.channel3.tick_length();
            self.channel4.tick_length();
        }
        if step == 2 || step == 6 {
            self.channel1.tick_sweep();
        }
        if step == 7 {
            self.channel1.tick_envelope();
            self.channel2.tick_envelope();
            self.channel4.tick_envelope();
        }
    }

    /// Advances the APU by one M-cycle. `div` is the timer's DIV register, which is
    /// where the 512 Hz sequencer clock comes from.
    pub fn tick(&mut self, div: u8)
        requires
            old(self).well_formed(),
        ensures
            *final(self) == old(self).tick_spec(div),
            final(self).well_formed(),
    {
        // The sequencer keeps running with the APU powered off — it is part of the
        // timer, not the sound hardware.
        let div_bit = div & 0x10 != 0;
        if self.previous_div_bit && !div_bit {
            self.step_sequencer();
        }
        self.previous_div_bit = div_bit;
        if self.powered {
            self.channel1.tick();
            self.channel2.tick();
            // Twice: the wave channel's divider runs at double the others' rate.
            self.channel3.tick();
            self.channel3.tick();
            self.channel4.tick();
        }
    }

    fn set_power(&mut self, on: bool)
        requires
            old(self).well_formed(),
        ensures
            *final(self) == old(self).set_power_spec(on),
            final(self).well_formed(),
    {
        if self.powered == on {
            return;
        }
        self.powered = on;
        if !on {
            self.channel1.power_off();
            self.channel2.power_off();
            self.channel3.power_off();
            self.channel4.power_off();
            self.nr50 = 0;
            self.nr51 = 0;
        } else {
            // The timing of the next step stays tied to DIV, but the count restarts,
            // so the first thing a freshly powered APU does is a length clock.
            self.sequencer_step = 0;
        }
    }

    pub fn write(&mut self, address: u16, value: u8)
        requires
            old(self).well_formed(),
        ensures
            *final(self) == old(self).write_spec(address, value),
            final(self).well_formed(),
    {
        // Wave RAM ignores the power state entirely.
        if 0xFF30 <= address && address <= 0xFF3F {
            if self.channel3.ram_accessible() {
                self.channel3.ram[(address - 0xFF30) as usize] = value;
            }
            return;
        }
        // With the APU off every register but NR52 is read-only, except that the
        // length loads survive a power cycle and still take writes.
        if !self.powered {
            if address == 0xFF11 {
                self.channel1.write_length(value);
            } else if address == 0xFF16 {
                self.channel2.write_length(value);
            } else if address == 0xFF1B {
                self.channel3.write_length(value);
            } else if address == 0xFF20 {
                self.channel4.write_length(value);
            } else if address == 0xFF26 {
                self.set_power(value & 0x80 != 0);
            }
            return;
        }
        let extra = self.extra_length_clock();
        if 0xFF10 <= address && address <= 0xFF14 {
            self.channel1.write((address - 0xFF10) as u8, value, extra);
        } else if 0xFF15 <= address && address <= 0xFF19 {
            self.channel2.write((address - 0xFF15) as u8, value, extra);
        } else if 0xFF1A <= address && address <= 0xFF1E {
            self.channel3.write((address - 0xFF1A) as u8, value, extra);
        } else if 0xFF1F <= address && address <= 0xFF23 {
            self.channel4.write((address - 0xFF1F) as u8, value, extra);
        } else if address == 0xFF24 {
            self.nr50 = value;
        } else if address == 0xFF25 {
            self.nr51 = value;
        } else if address == 0xFF26 {
            self.set_power(value & 0x80 != 0);
        }
    }

    /// Each channel's digital output, 0-15, and whether its DAC is powered, in
    /// channel order. Silent and unpowered throughout while the APU is off.
    pub fn dac_inputs(&self) -> (r: [(u8, bool); 4])
        requires
            self.well_formed(),
        ensures
            self.powered ==> r@ == seq![
                (self.channel1.output_spec(), self.channel1.envelope.dac_enabled_spec()),
                (self.channel2.output_spec(), self.channel2.envelope.dac_enabled_spec()),
                (self.channel3.output_spec(), self.channel3.dac_enabled),
                (self.channel4.output_spec(), self.channel4.envelope.dac_enabled_spec()),
            ],
            !self.powered ==> r@ == seq![(0u8, false), (0u8, false), (0u8, false), (0u8, false)],
    {
        if !self.powered {
            return [(0, false); 4];
        }
        [
            (self.channel1.output(), self.channel1.dac_enabled()),
            (self.channel2.output(), self.channel2.dac_enabled()),
            (self.channel3.output(), self.channel3.dac_enabled()),
            (self.channel4.output(), self.channel4.dac_enabled()),
        ]
    }

    /// Which sides each channel reaches, as (left, right) in channel order: NR51's
    /// high nibble is the left side, its low nibble the right.
    pub fn panning(&self) -> (r: [(bool, bool); 4])
        ensures
            r@ == seq![
                (self.nr51 & 0x10 != 0, self.nr51 & 0x01 != 0),
                (self.nr51 & 0x20 != 0, self.nr51 & 0x02 != 0),
                (self.nr51 & 0x40 != 0, self.nr51 & 0x04 != 0),
                (self.nr51 & 0x80 != 0, self.nr51 & 0x08 != 0),
            ],
    {
        let nr51 = self.nr51;
        [
            (nr51 & 0x10 != 0, nr51 & 0x01 != 0),
            (nr51 & 0x20 != 0, nr51 & 0x02 != 0),
            (nr51 & 0x40 != 0, nr51 & 0x04 != 0),
            (nr51 & 0x80 != 0, nr51 & 0x08 != 0),
        ]
    }

    /// The master volume of each side, as (left, right): NR50's three-bit fields,
    /// 0-7, mean a scale of 1-8, so the master volume alone never mutes a side.
    pub fn master_volume(&self) -> (r: (u8, u8))
        ensures
            r.0 == ((self.nr50 >> 4u8) & 0x07) + 1,
            r.1 == (self.nr50 & 0x07) + 1,
            1 <= r.0 <= 8,
            1 <= r.1 <= 8,
    {
        let nr50 = self.nr50;
        assert((nr50 >> 4u8) & 0x07 <= 7 && nr50 & 0x07 <= 7) by (bit_vector);
        (((nr50 >> 4) & 0x07) + 1, (nr50 & 0x07) + 1)
    }
}

/// Writing either byte of an 11-bit period keeps it 11 bits.
pub proof fn lemma_period_bits(period: u16, value: u8)
    ensures
        period <= 0x07FF ==> (period & 0x0700) | (value as u16) <= 0x07FF,
        (period & 0x00FF) | (((value as u16) & 0x07) << 8u16) <= 0x07FF,
{
    assert(period <= 0x07FF ==> (period & 0x0700) | (value as u16) <= 0x07FF) by (bit_vector);
    assert((period & 0x00FF) | (((value as u16) & 0x07) << 8u16) <= 0x07FF) by (bit_vector);
}

/// The widths of the register fields the channels decode.
pub proof fn lemma_register_fields(value: u8)
    ensures
        value & 0x3F <= 63,
        value & 0x07 < 8,
        (value >> 4u8) & 0x07 < 8,
        value >> 6u8 < 4,
        value >> 4u8 < 16,
{
    assert(value & 0x3F <= 63 && value & 0x07 < 8 && (value >> 4u8) & 0x07 < 8 && value >> 6u8 < 4
        && value >> 4u8 < 16) by (bit_vector);
}


/// Powering off clears every register: each one in NR10-NR51 then reads back as its
/// read mask alone.
pub proof fn lemma_power_off_clears_registers(apu: Apu, address: u16)
    requires
        apu.well_formed(),
        apu.powered,
        0xFF10 <= address <= 0xFF25,
    ensures
        apu.set_power_spec(false).read_spec(address) == READ_MASKS@[address - 0xFF10],
{
    let off = apu.set_power_spec(false);
    let mask = READ_MASKS@[address - 0xFF10];
    assert(0u8 << 6u8 == 0u8 && 0u8 << 5u8 == 0u8) by (bit_vector);
    assert(off.channel1.sweep == Some(square::Sweep::powered_off()));
    assert(off.channel2.sweep is None);
    assert(off.register_spec(address) == 0 || off.register_spec(address) == 0xFF);
    assert((0u8 | mask) == mask && (0xFFu8 | mask) == 0xFF) by (bit_vector);
    assert(off.register_spec(address) == 0xFF ==> mask == 0xFF);
}

/// With the power off, writes to anything but NR52, the four length loads and wave
/// RAM change nothing.
pub proof fn lemma_powered_off_ignores_writes(apu: Apu, address: u16, value: u8)
    requires
        !apu.powered,
        !(0xFF30 <= address <= 0xFF3F),
        address != 0xFF11 && address != 0xFF16 && address != 0xFF1B && address != 0xFF20,
        address != 0xFF26,
    ensures
        apu.write_spec(address, value) == apu,
{
}

/// Wave RAM survives switching the power either way.
pub proof fn lemma_wave_ram_survives_power(apu: Apu, on: bool)
    ensures
        apu.set_power_spec(on).channel3.ram == apu.channel3.ram,
{
}

/// NR52's channel bits are read-only: rewriting the power bit as it stands changes
/// nothing, whatever the low bits say.
pub proof fn lemma_status_bits_are_read_only(apu: Apu, value: u8)
    requires
        (value & 0x80 != 0) == apu.powered,
    ensures
        apu.write_spec(0xFF26, value) == apu,
{
}

/// The sequencer follows DIV, not the power switch: a falling edge of DIV bit 4
/// advances the step with the APU on or off.
pub proof fn lemma_sequencer_follows_div(apu: Apu, div: u8)
    requires
        apu.well_formed(),
        apu.previous_div_bit,
        div & 0x10 == 0,
    ensures
        apu.tick_spec(div).sequencer_step == (apu.sequencer_step + 1) % 8,
        !apu.tick_spec(div).previous_div_bit,
{
}

/// Without a falling edge the step stays where it is.
pub proof fn lemma_sequencer_waits_for_an_edge(apu: Apu, div: u8)
    requires
        !(apu.previous_div_bit && div & 0x10 == 0),
    ensures
        apu.tick_spec(div).sequencer_step == apu.sequencer_step,
{
}

/// Powering on restarts the step count at 0.
pub proof fn lemma_power_on_restarts_the_sequencer(apu: Apu)
    requires
        !apu.powered,
    ensures
        apu.set_power_spec(true).sequencer_step == 0,
        apu.set_power_spec(true).powered,
{
}

/// A channel needs its DAC: a trigger cannot start a channel whose DAC is off, and a
/// channel that is not running outputs digital zero.
pub proof fn lemma_channels_need_their_dacs(square: Square, wave: Wave, noise: Noise, extra_clock: bool)
    ensures
        !square.envelope.dac_enabled_spec() ==> !square.trigger_spec(extra_clock).enabled,
        !wave.dac_enabled ==> !wave.trigger_spec(extra_clock).enabled,
        !noise.envelope.dac_enabled_spec() ==> !noise.trigger_spec(extra_clock).enabled,
        !square.enabled ==> square.output_spec() == 0,
        !wave.enabled ==> wave.output_spec() == 0,
        !noise.enabled ==> noise.output_spec() == 0,
{
}

} // verus!
