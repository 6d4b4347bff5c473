//! MBC2: the odd one out. Up to 256 KiB of ROM and 512 *nibbles* of RAM.
//!
//! Two things make MBC2 unusual, and both come from the same decision — putting the
//! save RAM inside the mapper chip instead of on a separate chip.
//!
//! **The RAM is 4 bits wide.** 512 addresses of 4 bits each, and the upper four data
//! lines are not connected to anything. A write throws away the high nibble, and a read
//! leaves those lines floating. Games that use it store one nibble per address and mask
//! on the way out.
//!
//! **The registers are selected by an address bit, not an address range.** Every other
//! mapper carves 0x0000-0x7FFF into 8 KiB slices, one per register. MBC2 has only two
//! registers and picks between them with address line A8, so they interleave in 256-byte
//! stripes: 0x0000, 0x2000 and 0x3000 are RAMG, while 0x0100, 0x2100 and 0x3100 are
//! ROMB. Nothing above 0x3FFF is a register at all.
use vstd::prelude::*;
use super::{OPEN_BUS, Ram, RamModel, Rom, RomModel};

verus! {

/// The chip holds 512 addresses, so only A0-A8 of the RAM address matter.
pub const RAM_ADDRESSES: usize = 512;

/// MBC2 as a value.
pub struct Mbc2Model {
    pub rom: RomModel,
    pub ram: RamModel,
    pub romb: u8,
}

impl Mbc2Model {
    pub open spec fn initial(rom: Seq<u8>, banks: nat) -> Mbc2Model {
        Mbc2Model { rom: RomModel::initial(rom, banks), ram: RamModel::initial(512), romb: 1 }
    }

    pub open spec fn read_rom_spec(self, address: u16) -> u8 {
        self.rom.read_spec(
            if address < 0x4000 {
                0
            } else {
                self.romb as usize
            },
            address,
        )
    }

    pub open spec fn write_rom_spec(self, address: u16, value: u8) -> Mbc2Model {
        if address >= 0x4000 {
            self
        } else if address & 0x0100 == 0 {
            Mbc2Model { ram: self.ram.set_enabled_spec(value & 0x0F == 0x0A), ..self }
        } else {
            Mbc2Model {
                romb: if value & 0x0F == 0 {
                    1
                } else {
                    value & 0x0F
                },
                ..self
            }
        }
    }

    pub open spec fn read_ram_spec(self, address: u16) -> u8 {
        if self.ram.offset_spec(0, address) is None {
            OPEN_BUS
        } else {
            self.ram.read_spec(0, address) | 0xF0
        }
    }

    pub open spec fn write_ram_spec(self, address: u16, value: u8) -> Mbc2Model {
        Mbc2Model { ram: self.ram.write_spec(0, address, value & 0x0F), ..self }
    }
}

pub struct Mbc2 {
    rom: Rom,
    ram: Ram,
    /// ROM bank for the high window: 4 bits, and never zero.
    romb: u8,
}

impl View for Mbc2 {
    type V = Mbc2Model;

    closed spec fn view(&self) -> Mbc2Model {
        Mbc2Model { rom: self.rom@, ram: self.ram@, romb: self.romb }
    }
}

impl Mbc2 {
    /// The header's RAM-size byte is always 0 on an MBC2 cart, because the RAM is not
    /// on the board to be described. Its size is a property of the chip, so
    /// `ram_size` is not consulted.
    pub fn new(rom: Vec<u8>, rom_banks: usize, ram_size: usize) -> (r: Self)
        requires
            rom_banks <= 0x10000,
        ensures
            r@ == Mbc2Model::initial(rom@, rom_banks as nat),
    {
        Mbc2 { rom: Rom::new(rom, rom_banks), ram: Ram::new(RAM_ADDRESSES), romb: 1 }
    }

    pub fn read_rom(&self, address: u16) -> (r: u8)
        ensures
            r == self@.read_rom_spec(address),
    {
        let bank = if address < 0x4000 {
            0
        } else {
            self.romb as usize
        };
        self.rom.read(bank, address)
    }

    pub fn write_rom(&mut self, address: u16, value: u8)
        ensures
            final(self)@ == old(self)@.write_rom_spec(address, value),
    {
        // Only the low half of the ROM area holds registers; 0x4000-0x7FFF is inert.
        if address >= 0x4000 {
            return;
        }
        // A8 picks the register. This is the whole decode — which is why the two
        // registers alternate every 256 bytes across the entire 16 KiB range.
        if address & 0x0100 == 0 {
            // RAMG, four bits, same 0b1010 pattern as MBC1's gate.
            self.ram.set_enabled(value & 0x0F == 0x0A);
        } else {
            // ROMB, four bits, zero-adjusted for the same reason as MBC1's BANK1:
            // bank 0 is already hard-wired into the low window.
            let bank = value & 0x0F;
            self.romb = if bank == 0 {
                1
            } else {
                bank
            };
        }
    }

    pub fn read_ram(&self, address: u16) -> (r: u8)
        ensures
            r == self@.read_ram_spec(address),
    {
        if self.ram.offset(0, address).is_none() {
            return OPEN_BUS;
        }
        // The high nibble is not stored anywhere — those four data lines float, so
        // they read as ones like any undriven bus line.
        self.ram.read(0, address) | 0xF0
    }

    pub fn write_ram(&mut self, address: u16, value: u8)
        ensures
            final(self)@ == old(self)@.write_ram_spec(address, value),
    {
        // Keep only what the chip can physically hold, so a later read cannot return a
        // high nibble that no hardware would have kept.
        self.ram.write(0, address, value & 0x0F);
    }

    pub fn ram(&self) -> (r: &Ram)
        ensures
            r@ == self@.ram,
    {
        &self.ram
    }

    pub fn ram_mut(&mut self) -> (r: &mut Ram)
        ensures
            r@ == old(self)@.ram,
            final(self)@ == (Mbc2Model { ram: final(r)@, ..old(self)@ }),
    {
        &mut self.ram
    }
}

/// The RAM is four bits wide: with the RAM enabled, a byte written reads back as its
/// low nibble, with the four unconnected data lines reading high.
pub proof fn lemma_ram_keeps_a_nibble(m: Mbc2Model, address: u16, value: u8)
    requires
        m.ram.enabled,
        m.ram.bytes.len() == RAM_ADDRESSES,
    ensures
        m.write_ram_spec(address, value).read_ram_spec(address) == (value & 0x0F) | 0xF0,
{
}

/// Only A0-A8 reach the RAM, so its 512 addresses repeat every 0x200 bytes across the
/// 0xA000-0xBFFF window.
pub proof fn lemma_ram_repeats_every_512(m: Mbc2Model, address: u16)
    requires
        m.ram.bytes.len() == RAM_ADDRESSES,
        0xA000 <= address < 0xBE00,
    ensures
        m.read_ram_spec((address + 0x200) as u16) == m.read_ram_spec(address),
{
    assert((((address + 0x200) as u16 % 0x2000) as int) % 512 == ((address % 0x2000) as int) % 512);
}

/// The ROM bank in the high window is four bits and never zero: writing 0 selects
/// bank 1, as on MBC1.
pub proof fn lemma_rom_bank_never_zero(m: Mbc2Model, address: u16, value: u8)
    requires
        1 <= m.romb <= 15,
    ensures
        1 <= m.write_rom_spec(address, value).romb <= 15,
{
    assert(value & 0x0F <= 15) by (bit_vector);
}

} // verus!
