//! MBC5: up to 8 MiB of ROM and 128 KiB of RAM. Most Game Boy Color games use it.
//!
//! Four registers, and the design reads like a list of MBC1's annoyances being fixed:
//!
//! | Range | Register | Width |
//! |---|---|---|
//! | 0x0000-0x1FFF | RAMG (RAM gate) | 8 bits |
//! | 0x2000-0x2FFF | ROMB0 (bank, low bits) | 8 bits |
//! | 0x3000-0x3FFF | ROMB1 (bank, bit 8) | 1 bit |
//! | 0x4000-0x5FFF | RAMB (RAM bank) | 4 bits |
//!
//! **Bank 0 is selectable.** No zero-adjust: writing 0 to ROMB0 really does put bank 0
//! in the high window, mirroring the low one. MBC1's whole 0x20/0x40/0x60 gap comes from
//! the missing version of this, and it is gone here.
//!
//! **The bank number is one register split in two,** not two registers meaning different
//! things in different modes. Nine bits reach 512 banks, and there is no mode bit at all.
//!
//! One thing did get *stricter*: the RAM gate compares all eight bits, so only exactly
//! 0x0A opens it. On MBC1 and MBC2 the enable latch decodes the low nibble alone, and 0x1A works
//! as well as 0x0A.
//!
//! On rumble cartridges, bit 3 of RAMB is wired to the motor instead of to the RAM chip.
//! We do not drive a motor, and those carts have at most 8 banks of RAM, so the bit
//! simply addresses nothing.
use vstd::prelude::*;
use super::{Ram, RamModel, Rom, RomModel};

verus! {

/// MBC5 as a value.
pub struct Mbc5Model {
    pub rom: RomModel,
    pub ram: RamModel,
    pub romb0: u8,
    pub romb1: u8,
    pub ramb: u8,
}

impl Mbc5Model {
    pub open spec fn initial(rom: Seq<u8>, banks: nat, ram_size: nat) -> Mbc5Model {
        Mbc5Model {
            rom: RomModel::initial(rom, banks),
            ram: RamModel::initial(ram_size),
            romb0: 1,
            romb1: 0,
            ramb: 0,
        }
    }

    /// The nine-bit bank number: ROMB1 is bit 8, ROMB0 the rest.
    pub open spec fn rom_bank_spec(self) -> int {
        256 * (self.romb1 as int) + self.romb0
    }

    pub open spec fn read_rom_spec(self, address: u16) -> u8 {
        self.rom.read_spec(
            if address < 0x4000 {
                0
            } else {
                self.rom_bank_spec() as usize
            },
            address,
        )
    }

    pub open spec fn write_rom_spec(self, address: u16, value: u8) -> Mbc5Model {
        if address < 0x2000 {
            Mbc5Model { ram: self.ram.set_enabled_spec(value == 0x0A), ..self }
        } else if address < 0x3000 {
            Mbc5Model { romb0: value, ..self }
        } else if address < 0x4000 {
            Mbc5Model { romb1: value & 0x01, ..self }
        } else if address < 0x6000 {
            Mbc5Model { ramb: value & 0x0F, ..self }
        } else {
            self
        }
    }

    pub open spec fn read_ram_spec(self, address: u16) -> u8 {
        self.ram.read_spec(self.ramb as int, address)
    }

    pub open spec fn write_ram_spec(self, address: u16, value: u8) -> Mbc5Model {
        Mbc5Model { ram: self.ram.write_spec(self.ramb as int, address, value), ..self }
    }
}

pub struct Mbc5 {
    rom: Rom,
    ram: Ram,
    /// The low 8 bits of the ROM bank number.
    romb0: u8,
    /// Bit 8 of the ROM bank number. Only one bit of the written byte is wired.
    romb1: u8,
    /// RAM bank, 4 bits.
    ramb: u8,
}

impl View for Mbc5 {
    type V = Mbc5Model;

    closed spec fn view(&self) -> Mbc5Model {
        Mbc5Model {
            rom: self.rom@,
            ram: self.ram@,
            romb0: self.romb0,
            romb1: self.romb1,
            ramb: self.ramb,
        }
    }
}

impl Mbc5 {
    pub fn new(rom: Vec<u8>, rom_banks: usize, ram_size: usize) -> (r: Self)
        requires
            rom_banks <= 0x10000,
        ensures
            r@ == Mbc5Model::initial(rom@, rom_banks as nat, ram_size as nat),
    {
        Mbc5 {
            rom: Rom::new(rom, rom_banks),
            ram: Ram::new(ram_size),
            // Power-on bank is 1, but only because that is the reset value of the
            // register — not because 0 is forbidden. A game may write 0 whenever it
            // likes.
            romb0: 1,
            romb1: 0,
            ramb: 0,
        }
    }

    /// The bank the high window shows.
    pub fn rom_bank(&self) -> (r: usize)
        ensures
            r == self@.rom_bank_spec(),
    {
        (self.romb1 as usize) * 256 + self.romb0 as usize
    }

    pub fn read_rom(&self, address: u16) -> (r: u8)
        ensures
            r == self@.read_rom_spec(address),
    {
        let bank = if address < 0x4000 {
            0
        } else {
            self.rom_bank()
        };
        self.rom.read(bank, address)
    }

    pub fn write_rom(&mut self, address: u16, value: u8)
        ensures
            final(self)@ == old(self)@.write_rom_spec(address, value),
    {
        if address < 0x2000 {
            // All eight bits are compared here, unlike MBC1's low-nibble decode.
            self.ram.set_enabled(value == 0x0A);
        } else if address < 0x3000 {
            // The two halves of the bank number. Splitting 0x2000-0x3FFF into two 4 KiB
            // ranges is what buys the ninth bit without spending another register slot.
            self.romb0 = value;
        } else if address < 0x4000 {
            self.romb1 = value & 0x01;
        } else if address < 0x6000 {
            self.ramb = value & 0x0F;
        }
        // 0x6000-0x7FFF is not a register on MBC5: there is no mode to select and no
        // clock to latch.
    }

    pub fn read_ram(&self, address: u16) -> (r: u8)
        ensures
            r == self@.read_ram_spec(address),
    {
        self.ram.read(self.ramb as usize, address)
    }

    pub fn write_ram(&mut self, address: u16, value: u8)
        ensures
            final(self)@ == old(self)@.write_ram_spec(address, value),
    {
        let bank = self.ramb as usize;
        self.ram.write(bank, address, value);
    }

    pub fn ram(&self) -> (r: &Ram)
        ensures
            r@ == self@.ram,
    {
        &self.ram
    }

    pub fn ram_mut(&mut self) -> (r: &mut Ram)
        ensures
            r@ == old(self)@.ram,
            final(self)@ == (Mbc5Model { ram: final(r)@, ..old(self)@ }),
    {
        &mut self.ram
    }
}

/// MBC5's ROM bank is nine bits across two registers, and bank 0 is selectable:
/// after writing `low` to 0x2000-0x2FFF and `high` to 0x3000-0x3FFF, the high window
/// shows bank `256 * (high % 2) + low`.
pub proof fn lemma_rom_bank_spans_two_registers(
    m: Mbc5Model,
    low_at: u16,
    low: u8,
    high_at: u16,
    high: u8,
    at: u16,
)
    requires
        0x2000 <= low_at < 0x3000,
        0x3000 <= high_at < 0x4000,
        0x4000 <= at < 0x8000,
    ensures
        m.write_rom_spec(low_at, low).write_rom_spec(high_at, high).read_rom_spec(at)
            == m.rom.read_spec((256 * (high % 2) + low) as usize, at),
{
    super::lemma_low_bits(high);
}

} // verus!
