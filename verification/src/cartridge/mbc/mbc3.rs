//! MBC3: up to 2 MiB of ROM, 32 KiB of RAM, and a clock that keeps time with the
//! console switched off.
//!
//! The banking is the boring part, and deliberately so — MBC3 drops MBC1's mode bit and
//! gives the ROM bank register a full 7 bits, so `BANK` means what it says and the
//! 0x20/0x40/0x60 gap is gone. What it adds is the RTC.
//!
//! # The clock
//!
//! A quartz crystal and a battery on the cartridge keep five counters running whether or
//! not the Game Boy is on: seconds, minutes, hours, a 9-bit day counter, and a carry bit
//! for when that day counter wraps after 512 days.
//!
//! The counters are not in the memory map. They appear in the 0xA000-0xBFFF window
//! *instead of* save RAM when the bank register selects 0x08-0x0C, which is why the same
//! register does double duty.
//!
//! # Latching
//!
//! Reading five counters that are still counting would let you observe 00:59:59 in the
//! middle of becoming 01:00:00 — minutes read before the rollover, hours after. So the
//! CPU cannot read them live. Writing 0x00 then 0x01 to 0x6000-0x7FFF copies all five
//! into a set of latch registers at one instant, and those are what reads return. The
//! clock behind them never stops.
//!
//! We drive it from the emulator's own cycle count rather than the host clock: the
//! cartridge is on the same crystal as everything else here, so a paused emulator has a
//! paused cartridge, and a run is reproducible.
use vstd::prelude::*;
use super::{OPEN_BUS, Ram, RamModel, Rom, RomModel};

verus! {

/// M-cycles in one second: 4194304 T-cycles / 4.
pub const M_CYCLES_PER_SECOND: u32 = 1_048_576;

/// The day counter is 9 bits, so it wraps after this many days and sets the carry.
pub const DAYS_PER_WRAP: u16 = 512;

/// The five clock counters, as a value that can be copied wholesale on a latch.
#[derive(Debug, Clone, Copy, PartialEq, Eq, Structural)]
pub struct Time {
    pub seconds: u8,
    pub minutes: u8,
    pub hours: u8,
    /// 0-511. The high bit lives in the DH register alongside the flags.
    pub days: u16,
    /// Set when the day counter wraps past 511, and never cleared by the hardware —
    /// only by the game writing DH. It is how a game notices it has been more than 512
    /// days, which it otherwise could not distinguish from a fresh cartridge.
    pub carry: bool,
}

impl Time {
    /// Every counter holds a value its register can show.
    pub open spec fn well_formed(self) -> bool {
        self.seconds < 60 && self.minutes < 60 && self.hours < 24 && self.days < 512
    }

    pub open spec fn zero() -> Time {
        Time { seconds: 0, minutes: 0, hours: 0, days: 0, carry: false }
    }

    /// The time one second later.
    pub open spec fn advance_spec(self) -> Time {
        if self.seconds + 1 < 60 {
            Time { seconds: (self.seconds + 1) as u8, ..self }
        } else if self.minutes + 1 < 60 {
            Time { seconds: 0, minutes: (self.minutes + 1) as u8, ..self }
        } else if self.hours + 1 < 24 {
            Time { seconds: 0, minutes: 0, hours: (self.hours + 1) as u8, ..self }
        } else if self.days + 1 < 512 {
            Time { seconds: 0, minutes: 0, hours: 0, days: (self.days + 1) as u16, ..self }
        } else {
            Time { seconds: 0, minutes: 0, hours: 0, days: 0, carry: true }
        }
    }

    /// Seconds since day 0, 00:00:00.
    pub open spec fn total_seconds(self) -> int {
        ((self.days * 24 + self.hours) * 60 + self.minutes) * 60 + self.seconds
    }

    pub fn new() -> (r: Self)
        ensures
            r == Time::zero(),
    {
        Time { seconds: 0, minutes: 0, hours: 0, days: 0, carry: false }
    }

    /// Advances by one second, rolling each counter into the next.
    pub fn advance(&mut self)
        requires
            old(self).well_formed(),
        ensures
            *final(self) == old(self).advance_spec(),
            final(self).well_formed(),
    {
        self.seconds = self.seconds + 1;
        if self.seconds < 60 {
            return;
        }
        self.seconds = 0;

        self.minutes = self.minutes + 1;
        if self.minutes < 60 {
            return;
        }
        self.minutes = 0;

        self.hours = self.hours + 1;
        if self.hours < 24 {
            return;
        }
        self.hours = 0;

        self.days = self.days + 1;
        if self.days >= DAYS_PER_WRAP {
            self.days = 0;
            self.carry = true;
        }
    }
}

/// The clock: live counters, the latched copy the CPU reads, and the halt bit.
#[derive(Debug, Clone, Copy, PartialEq, Eq, Structural)]
pub struct Rtc {
    pub live: Time,
    pub latched: Time,
    /// DH bit 6. While set the crystal is disconnected and nothing advances — games
    /// set it before writing the counters so the write is not immediately overtaken.
    pub halted: bool,
    /// M-cycles accumulated toward the next whole second.
    pub cycles: u32,
    /// Whether the 0x00 half of the 0x00-then-0x01 latch sequence has been seen.
    pub latch_armed: bool,
}

/// Day counters stay nine bits through DL and DH writes.
proof fn lemma_day_bits(days: u16, value: u8)
    ensures
        (days & 0x0100) | (value as u16) < 512,
        (days & 0x00FF) | (((value as u16) & 0x01) << 8u16) < 512,
{
    assert((days & 0x0100) | (value as u16) < 512) by (bit_vector);
    assert((days & 0x00FF) | (((value as u16) & 0x01) << 8u16) < 512) by (bit_vector);
}

impl Rtc {
    pub open spec fn well_formed(self) -> bool {
        self.live.well_formed() && self.latched.well_formed() && self.cycles < M_CYCLES_PER_SECOND
    }

    pub open spec fn initial() -> Rtc {
        Rtc { live: Time::zero(), latched: Time::zero(), halted: false, cycles: 0, latch_armed: false }
    }

    pub open spec fn tick_spec(self) -> Rtc {
        if self.halted {
            self
        } else if self.cycles + 1 >= M_CYCLES_PER_SECOND {
            Rtc { cycles: 0, live: self.live.advance_spec(), ..self }
        } else {
            Rtc { cycles: (self.cycles + 1) as u32, ..self }
        }
    }

    pub open spec fn write_latch_spec(self, value: u8) -> Rtc {
        if value == 0x00 {
            Rtc { latch_armed: true, ..self }
        } else if value == 0x01 && self.latch_armed {
            Rtc { latched: self.live, latch_armed: false, ..self }
        } else {
            Rtc { latch_armed: false, ..self }
        }
    }

    pub open spec fn read_spec(self, register: u8) -> u8 {
        if register == 0x08 {
            self.latched.seconds
        } else if register == 0x09 {
            self.latched.minutes
        } else if register == 0x0A {
            self.latched.hours
        } else if register == 0x0B {
            (self.latched.days % 256) as u8
        } else if register == 0x0C {
            ((self.latched.days / 256) % 2) as u8 | (if self.halted {
                0x40u8
            } else {
                0u8
            }) | (if self.latched.carry {
                0x80u8
            } else {
                0u8
            }) | 0x3E
        } else {
            OPEN_BUS
        }
    }

    pub open spec fn write_spec(self, register: u8, value: u8) -> Rtc {
        let live = self.live;
        let (rtc, live) = if register == 0x08 {
            (Rtc { cycles: 0, ..self }, Time { seconds: value % 60, ..live })
        } else if register == 0x09 {
            (self, Time { minutes: value % 60, ..live })
        } else if register == 0x0A {
            (self, Time { hours: value % 24, ..live })
        } else if register == 0x0B {
            (self, Time { days: (live.days & 0x0100) | (value as u16), ..live })
        } else if register == 0x0C {
            (
                Rtc { halted: value & 0x40 != 0, ..self },
                Time {
                    days: (live.days & 0x00FF) | (((value as u16) & 0x01) << 8u16),
                    carry: value & 0x80 != 0,
                    ..live
                },
            )
        } else {
            (self, live)
        };
        if 0x08 <= register <= 0x0C {
            Rtc { live, latched: live, ..rtc }
        } else {
            self
        }
    }

    pub fn new() -> (r: Self)
        ensures
            r == Rtc::initial(),
    {
        Rtc { live: Time::new(), latched: Time::new(), halted: false, cycles: 0, latch_armed: false }
    }

    pub fn tick(&mut self)
        requires
            old(self).well_formed(),
        ensures
            *final(self) == old(self).tick_spec(),
            final(self).well_formed(),
    {
        if self.halted {
            return;
        }
        self.cycles = self.cycles + 1;
        if self.cycles >= M_CYCLES_PER_SECOND {
            self.cycles = self.cycles - M_CYCLES_PER_SECOND;
            self.live.advance();
        }
    }

    /// Handles a write to 0x6000-0x7FFF. The latch happens on the 0->1 edge, so a game
    /// that writes 0x01 twice does not latch twice.
    pub fn write_latch(&mut self, value: u8)
        ensures
            *final(self) == old(self).write_latch_spec(value),
    {
        if value == 0x00 {
            self.latch_armed = true;
        } else if value == 0x01 && self.latch_armed {
            self.latched = self.live;
            self.latch_armed = false;
        } else {
            // Anything else abandons the sequence rather than completing it.
            self.latch_armed = false;
        }
    }

    /// Reads one of the RTC registers, selected by 0x08-0x0C.
    pub fn read(&self, register: u8) -> (r: u8)
        ensures
            r == self.read_spec(register),
    {
        match register {
            0x08 => self.latched.seconds,
            0x09 => self.latched.minutes,
            0x0A => self.latched.hours,
            0x0B => (self.latched.days % 256) as u8,
            0x0C => {
                // DH packs the day counter's 9th bit in with the two flags; the
                // unwired bits in between read high.
                let day_high = ((self.latched.days / 256) % 2) as u8;
                let halt = if self.halted {
                    0x40u8
                } else {
                    0
                };
                let carry = if self.latched.carry {
                    0x80u8
                } else {
                    0
                };
                day_high | halt | carry | 0x3E
            },
            _ => OPEN_BUS,
        }
    }

    /// Writes one of the RTC registers.
    ///
    /// The write lands on both the live counters and the latch: the game is setting the
    /// clock, so leaving the latch showing the old time until the next latch sequence
    /// would just be confusing. Writing seconds also clears the sub-second divider, as
    /// on hardware — which is how a game sets the clock to an exact second.
    pub fn write(&mut self, register: u8, value: u8)
        requires
            old(self).well_formed(),
        ensures
            *final(self) == old(self).write_spec(register, value),
            final(self).well_formed(),
    {
        proof {
            lemma_day_bits(self.live.days, value);
        }
        match register {
            0x08 => {
                self.live.seconds = value % 60;
                self.cycles = 0;
            },
            0x09 => self.live.minutes = value % 60,
            0x0A => self.live.hours = value % 24,
            0x0B => self.live.days = (self.live.days & 0x0100) | value as u16,
            0x0C => {
                self.live.days = (self.live.days & 0x00FF) | ((value as u16 & 0x01) << 8u16);
                self.halted = value & 0x40 != 0;
                self.live.carry = value & 0x80 != 0;
            },
            _ => return,
        }
        self.latched = self.live;
    }
}

/// MBC3 as a value.
pub struct Mbc3Model {
    pub rom: RomModel,
    pub ram: RamModel,
    pub bank: u8,
    pub select: u8,
    pub rtc: Option<Rtc>,
}

impl Mbc3Model {
    pub open spec fn well_formed(self) -> bool {
        self.rtc matches Some(rtc) ==> rtc.well_formed()
    }

    pub open spec fn initial(rom: Seq<u8>, banks: nat, ram_size: nat, has_timer: bool) -> Mbc3Model {
        Mbc3Model {
            rom: RomModel::initial(rom, banks),
            ram: RamModel::initial(ram_size),
            bank: 1,
            select: 0,
            rtc: if has_timer {
                Some(Rtc::initial())
            } else {
                None
            },
        }
    }

    pub open spec fn read_rom_spec(self, address: u16) -> u8 {
        self.rom.read_spec(
            if address < 0x4000 {
                0
            } else {
                self.bank as usize
            },
            address,
        )
    }

    pub open spec fn write_rom_spec(self, address: u16, value: u8) -> Mbc3Model {
        if address < 0x2000 {
            Mbc3Model { ram: self.ram.set_enabled_spec(value & 0x0F == 0x0A), ..self }
        } else if address < 0x4000 {
            Mbc3Model {
                bank: if value & 0x7F == 0 {
                    1
                } else {
                    value & 0x7F
                },
                ..self
            }
        } else if address < 0x6000 {
            Mbc3Model { select: value, ..self }
        } else {
            match self.rtc {
                Some(rtc) => Mbc3Model { rtc: Some(rtc.write_latch_spec(value)), ..self },
                None => self,
            }
        }
    }

    pub open spec fn read_ram_spec(self, address: u16) -> u8 {
        if self.select <= 0x07 {
            self.ram.read_spec(self.select as int, address)
        } else {
            match self.rtc {
                Some(rtc) => if self.ram.enabled {
                    rtc.read_spec(self.select)
                } else {
                    OPEN_BUS
                },
                None => OPEN_BUS,
            }
        }
    }

    pub open spec fn write_ram_spec(self, address: u16, value: u8) -> Mbc3Model {
        if self.select <= 0x07 {
            Mbc3Model { ram: self.ram.write_spec(self.select as int, address, value), ..self }
        } else {
            match self.rtc {
                Some(rtc) => if self.ram.enabled {
                    Mbc3Model { rtc: Some(rtc.write_spec(self.select, value)), ..self }
                } else {
                    self
                },
                None => self,
            }
        }
    }

    pub open spec fn tick_spec(self) -> Mbc3Model {
        match self.rtc {
            Some(rtc) => Mbc3Model { rtc: Some(rtc.tick_spec()), ..self },
            None => self,
        }
    }
}

pub struct Mbc3 {
    rom: Rom,
    ram: Ram,
    /// 7-bit ROM bank for the high window. Zero-adjusted, but with no BANK2 to prepend
    /// there is no gap: only bank 0 itself is unreachable there.
    bank: u8,
    /// 0x00-0x07 selects a RAM bank, 0x08-0x0C an RTC register.
    select: u8,
    /// `None` on a cartridge with no crystal — the +RAM variants of the type byte.
    rtc: Option<Rtc>,
}

impl View for Mbc3 {
    type V = Mbc3Model;

    closed spec fn view(&self) -> Mbc3Model {
        Mbc3Model {
            rom: self.rom@,
            ram: self.ram@,
            bank: self.bank,
            select: self.select,
            rtc: self.rtc,
        }
    }
}

impl Mbc3 {
    pub fn new(rom: Vec<u8>, rom_banks: usize, ram_size: usize, has_timer: bool) -> (r: Self)
        requires
            rom_banks <= 0x10000,
        ensures
            r@ == Mbc3Model::initial(rom@, rom_banks as nat, ram_size as nat, has_timer),
            r@.well_formed(),
    {
        Mbc3 {
            rom: Rom::new(rom, rom_banks),
            ram: Ram::new(ram_size),
            bank: 1,
            select: 0,
            rtc: if has_timer {
                Some(Rtc::new())
            } else {
                None
            },
        }
    }

    pub fn read_rom(&self, address: u16) -> (r: u8)
        ensures
            r == self@.read_rom_spec(address),
    {
        let bank = if address < 0x4000 {
            0
        } else {
            self.bank as usize
        };
        self.rom.read(bank, address)
    }

    pub fn write_rom(&mut self, address: u16, value: u8)
        requires
            old(self)@.well_formed(),
        ensures
            final(self)@ == old(self)@.write_rom_spec(address, value),
            final(self)@.well_formed(),
    {
        if address < 0x2000 {
            // One gate for both the RAM and the clock registers: with the crystal
            // running off its own battery, this only controls access, not timekeeping.
            self.ram.set_enabled(value & 0x0F == 0x0A);
        } else if address < 0x4000 {
            // Seven bits, so 2 MiB is reachable without a second register. Still
            // zero-adjusted, for MBC1's reason: bank 0 is already in the low window.
            let bank = value & 0x7F;
            self.bank = if bank == 0 {
                1
            } else {
                bank
            };
        } else if address < 0x6000 {
            self.select = value;
        } else {
            match &mut self.rtc {
                Some(rtc) => rtc.write_latch(value),
                None => {},
            }
        }
    }

    /// What the 0xA000-0xBFFF window shows: 0x00-0x07 rather than 0x00-0x03 select
    /// RAM, because MBC30, the variant in Japanese Pokemon Crystal, has eight RAM
    /// banks. On a plain MBC3 the extra numbers simply wrap in the RAM chip, which is
    /// what the missing address lines would do.
    pub fn read_ram(&self, address: u16) -> (r: u8)
        ensures
            r == self@.read_ram_spec(address),
    {
        if self.select <= 0x07 {
            return self.ram.read(self.select as usize, address);
        }
        match &self.rtc {
            // The enable latch covers the clock too: a game must open it before reading the
            // time, exactly as for save RAM.
            Some(rtc) => {
                if self.ram.is_enabled() {
                    rtc.read(self.select)
                } else {
                    OPEN_BUS
                }
            },
            None => OPEN_BUS,
        }
    }

    pub fn write_ram(&mut self, address: u16, value: u8)
        requires
            old(self)@.well_formed(),
        ensures
            final(self)@ == old(self)@.write_ram_spec(address, value),
            final(self)@.well_formed(),
    {
        if self.select <= 0x07 {
            let bank = self.select as usize;
            self.ram.write(bank, address, value);
            return;
        }
        let enabled = self.ram.is_enabled();
        let register = self.select;
        match &mut self.rtc {
            Some(rtc) => {
                if enabled {
                    rtc.write(register, value);
                }
            },
            None => {},
        }
    }

    pub fn tick(&mut self)
        requires
            old(self)@.well_formed(),
        ensures
            final(self)@ == old(self)@.tick_spec(),
            final(self)@.well_formed(),
    {
        match &mut self.rtc {
            Some(rtc) => rtc.tick(),
            None => {},
        }
    }

    pub fn ram(&self) -> (r: &Ram)
        ensures
            r@ == self@.ram,
    {
        &self.ram
    }

    pub fn ram_mut(&mut self) -> (r: &mut Ram)
        ensures
            r@ == old(self)@.ram,
            final(self)@ == (Mbc3Model { ram: final(r)@, ..old(self)@ }),
    {
        &mut self.ram
    }
}

/// Time moves forward one second at a time: apart from the 512-day wrap, a tick that
/// completes a second adds exactly one to the clock's running total.
pub proof fn lemma_advance_counts_seconds(t: Time)
    requires
        t.well_formed(),
    ensures
        t.advance_spec().well_formed(),
        t.total_seconds() + 1 < 512 * 86400 ==> t.advance_spec().total_seconds()
            == t.total_seconds() + 1,
{
}

/// A latched clock reads back what it latched, however long the live clock then runs.
pub proof fn lemma_latch_holds(rtc: Rtc)
    ensures
        rtc.write_latch_spec(0x00).write_latch_spec(0x01).latched == rtc.live,
        rtc.tick_spec().latched == rtc.latched,
{
}

/// The day counter's carry, once set, stays set as the clock runs: only the game,
/// writing DH, clears it.
pub proof fn lemma_day_carry_sticks(rtc: Rtc)
    ensures
        rtc.live.carry ==> rtc.tick_spec().live.carry,
        rtc.live.days == 511 && rtc.live.hours == 23 && rtc.live.minutes == 59
            && rtc.live.seconds == 59 && !rtc.halted && rtc.cycles + 1 >= M_CYCLES_PER_SECOND
            ==> rtc.tick_spec().live.carry && rtc.tick_spec().live.days == 0,
{
}

/// MBC3's ROM bank is seven bits, with no gap: after a write of `value` to
/// 0x2000-0x3FFF the high window shows bank `value % 128`, or bank 1 in place of 0.
pub proof fn lemma_rom_bank_is_seven_bits(m: Mbc3Model, address: u16, value: u8, at: u16)
    requires
        0x2000 <= address < 0x4000,
        0x4000 <= at < 0x8000,
    ensures
        m.write_rom_spec(address, value).read_rom_spec(at) == m.rom.read_spec(
            if value % 128 == 0 {
                1
            } else {
                (value % 128) as usize
            },
            at,
        ),
{
    super::lemma_low_bits(value);
}

} // verus!
