//! MBC1: the first and most common mapper. Up to 2 MiB of ROM and 32 KiB of RAM.
//!
//! Three registers plus an enable gate, all write-only:
//!
//! | Range | Register | Width |
//! |---|---|---|
//! | 0x0000-0x1FFF | RAMG (RAM gate) | 4 bits |
//! | 0x2000-0x3FFF | BANK1 | 5 bits |
//! | 0x4000-0x5FFF | BANK2 | 2 bits |
//! | 0x6000-0x7FFF | MODE | 1 bit |
//!
//! BANK1 and BANK2 concatenate into a 7-bit ROM bank number (`BANK2:BANK1`), which is
//! what reaches 2 MiB. BANK2 does double duty as the RAM bank number, and MODE decides
//! which job it is doing — see [`Mbc1::rom_bank`].
use vstd::prelude::*;
use super::{Ram, RamModel, Rom, RomModel};
use crate::cartridge::header::{has_logo_at, logo_at};

verus! {

/// A "game" slot in a multicart: 16 banks, 256 KiB.
pub const MULTICART_GAME_BANKS: usize = 16;

/// All known multicarts are exactly 1 MiB.
pub const MULTICART_SIZE: usize = 0x100000;

/// How many of the first `slots` 256 KiB slots of `rom` start with a logo.
pub open spec fn logo_slots(rom: Seq<u8>, slots: int) -> int
    decreases slots,
{
    if slots <= 0 {
        0
    } else {
        logo_slots(rom, slots - 1) + if logo_at(rom, (slots - 1) * 0x40000) {
            1int
        } else {
            0int
        }
    }
}

/// Whether an image is wired as a multicart: 1 MiB, with logos in at least three of
/// its four 256 KiB slots.
pub open spec fn multicart_spec(rom: Seq<u8>) -> bool {
    rom.len() == 0x100000 && logo_slots(rom, 4) >= 3
}

/// MBC1 as a value.
pub struct Mbc1Model {
    pub rom: RomModel,
    pub ram: RamModel,
    pub bank1: u8,
    pub bank2: u8,
    pub mode: bool,
    pub multicart: bool,
}

impl Mbc1Model {
    pub open spec fn initial(rom: Seq<u8>, banks: nat, ram_size: nat) -> Mbc1Model {
        Mbc1Model {
            rom: RomModel::initial(rom, banks),
            ram: RamModel::initial(ram_size),
            bank1: 1,
            bank2: 0,
            mode: false,
            multicart: multicart_spec(rom),
        }
    }

    /// The ROM bank visible at `address`.
    pub open spec fn rom_bank_spec(self, address: u16) -> u8 {
        let bank1 = if self.multicart {
            self.bank1 & 0x0F
        } else {
            self.bank1
        };
        let shift: u8 = if self.multicart {
            4
        } else {
            5
        };
        if address < 0x4000 {
            if self.mode {
                self.bank2 << shift
            } else {
                0
            }
        } else {
            (self.bank2 << shift) | bank1
        }
    }

    /// The RAM bank visible in the window.
    pub open spec fn ram_bank_spec(self) -> u8 {
        if self.mode {
            self.bank2
        } else {
            0
        }
    }

    pub open spec fn read_rom_spec(self, address: u16) -> u8 {
        self.rom.read_spec(self.rom_bank_spec(address) as usize, address)
    }

    pub open spec fn write_rom_spec(self, address: u16, value: u8) -> Mbc1Model {
        if address < 0x2000 {
            Mbc1Model { ram: self.ram.set_enabled_spec(value & 0x0F == 0x0A), ..self }
        } else if address < 0x4000 {
            Mbc1Model {
                bank1: if value & 0x1F == 0 {
                    1
                } else {
                    value & 0x1F
                },
                ..self
            }
        } else if address < 0x6000 {
            Mbc1Model { bank2: value & 0x03, ..self }
        } else {
            Mbc1Model { mode: value & 0x01 != 0, ..self }
        }
    }

    pub open spec fn read_ram_spec(self, address: u16) -> u8 {
        self.ram.read_spec(self.ram_bank_spec() as int, address)
    }

    pub open spec fn write_ram_spec(self, address: u16, value: u8) -> Mbc1Model {
        Mbc1Model { ram: self.ram.write_spec(self.ram_bank_spec() as int, address, value), ..self }
    }
}

pub struct Mbc1 {
    rom: Rom,
    ram: Ram,
    /// The low 5 bits of the ROM bank number. Never zero; see [`Mbc1::write_rom`].
    bank1: u8,
    /// Two bits that are either the top of the ROM bank number or the RAM bank
    /// number, depending on `mode`.
    bank2: u8,
    /// False = ROM banking mode, true = RAM banking mode.
    mode: bool,
    /// Multicart wiring, where BANK1's bit 4 is not connected to anything.
    multicart: bool,
}

impl View for Mbc1 {
    type V = Mbc1Model;

    closed spec fn view(&self) -> Mbc1Model {
        Mbc1Model {
            rom: self.rom@,
            ram: self.ram@,
            bank1: self.bank1,
            bank2: self.bank2,
            mode: self.mode,
            multicart: self.multicart,
        }
    }
}

impl Mbc1 {
    pub fn new(rom: Vec<u8>, rom_banks: usize, ram_size: usize) -> (r: Self)
        requires
            rom_banks <= 0x10000,
        ensures
            r@ == Mbc1Model::initial(rom@, rom_banks as nat, ram_size as nat),
    {
        let multicart = is_multicart(rom.as_slice());
        Mbc1 {
            rom: Rom::new(rom, rom_banks),
            ram: Ram::new(ram_size),
            // Power-on state: BANK1 = 1, so bank 1 sits at 0x4000 before a game writes
            // anything. It cannot be 0 — that is the whole point of the zero-adjust.
            bank1: 1,
            bank2: 0,
            mode: false,
            multicart,
        }
    }

    /// Whether the board is wired as a multicart.
    pub fn multicart(&self) -> (r: bool)
        ensures
            r == self@.multicart,
    {
        self.multicart
    }

    /// Which ROM bank is currently visible at `address`.
    ///
    /// The two windows behave differently, and this is the part of MBC1 that surprises
    /// people:
    ///
    /// - **0x4000-0x7FFF** always shows `BANK2:BANK1`.
    /// - **0x0000-0x3FFF** shows bank 0 in mode 0, but in mode 1 it shows
    ///   `BANK2:00000` — bank 0x00, 0x20, 0x40, or 0x60. Mode 1 is how a large cart
    ///   reaches the bottom of each 512 KiB quarter, which is what multicarts use to
    ///   put a different game's bank 0 in front of the CPU.
    ///
    /// Because BANK1 is forced non-zero, banks 0x00/0x20/0x40/0x60 can never appear in
    /// the *high* window. A 1 MiB cartridge therefore cannot reach 3 of its 64 banks
    /// through it; real games simply avoid putting anything important there.
    pub fn rom_bank(&self, address: u16) -> (r: usize)
        ensures
            r == self@.rom_bank_spec(address),
    {
        // On a multicart BANK1's bit 4 is not wired, so the bank number is 6 bits and
        // BANK2 shifts up by 4 instead of 5. BANK2 then works out to a game number and
        // BANK1 to a bank within that game.
        let (bank1, shift) = if self.multicart {
            (self.bank1 & 0x0F, 4u8)
        } else {
            (self.bank1, 5u8)
        };
        let bank = if address < 0x4000 {
            if self.mode {
                self.bank2 << shift
            } else {
                0
            }
        } else {
            (self.bank2 << shift) | bank1
        };
        bank as usize
    }

    /// Which RAM bank is currently visible, or bank 0 when BANK2 is busy addressing
    /// ROM. Only 32 KiB carts have more than one bank to choose from.
    pub fn ram_bank(&self) -> (r: usize)
        ensures
            r == self@.ram_bank_spec(),
    {
        if self.mode {
            self.bank2 as usize
        } else {
            0
        }
    }

    pub fn read_rom(&self, address: u16) -> (r: u8)
        ensures
            r == self@.read_rom_spec(address),
    {
        self.rom.read(self.rom_bank(address), address)
    }

    pub fn write_rom(&mut self, address: u16, value: u8)
        requires
            address < 0x8000,
        ensures
            final(self)@ == old(self)@.write_rom_spec(address, value),
    {
        if address < 0x2000 {
            // RAMG. Any value whose low nibble is 0xA opens the enable latch; everything else
            // shuts it. Decoding a single bit pattern means a wild write is
            // overwhelmingly likely to *close* the enable latch rather than expose the save.
            self.ram.set_enabled(value & 0x0F == 0x0A);
        } else if address < 0x4000 {
            // BANK1. Only 5 bits are wired, and a written 0 becomes 1: the register
            // drives ROM address lines A14-A18, and bank 0 is already hard-wired into
            // the low window, so allowing 0 here would just mirror it. This adjust
            // happens on the register itself, before BANK2 is prepended — which is
            // exactly why bank 0x20 is unreachable and bank 0x21 is not.
            let bank = value & 0x1F;
            self.bank1 = if bank == 0 {
                1
            } else {
                bank
            };
        } else if address < 0x6000 {
            // BANK2: two bits, no zero-adjust. Its meaning depends on MODE.
            self.bank2 = value & 0x03;
        } else {
            // MODE. Games with 32 KiB of save RAM flip this to 1 to reach their upper
            // RAM banks, then usually flip it back before touching ROM.
            self.mode = value & 0x01 != 0;
        }
    }

    pub fn read_ram(&self, address: u16) -> (r: u8)
        ensures
            r == self@.read_ram_spec(address),
    {
        self.ram.read(self.ram_bank(), address)
    }

    pub fn write_ram(&mut self, address: u16, value: u8)
        ensures
            final(self)@ == old(self)@.write_ram_spec(address, value),
    {
        let bank = self.ram_bank();
        self.ram.write(bank, address, value);
    }

    pub fn ram(&self) -> (r: &Ram)
        ensures
            r@ == self@.ram,
    {
        &self.ram
    }

    pub fn ram_mut(&mut self) -> (r: &mut Ram)
        ensures
            r@ == old(self)@.ram,
            final(self)@ == (Mbc1Model { ram: final(r)@, ..old(self)@ }),
    {
        &mut self.ram
    }
}

/// Guesses whether a ROM image is a multicart board rather than a plain MBC1.
///
/// There is nothing in the header to go on: a multicart's type byte is an ordinary
/// MBC1 value, because the chip really is an ordinary MBC1 — only the board wiring
/// differs. What gives it away is the contents. Each bundled game is a complete
/// cartridge image with its own header, and they are laid out 256 KiB apart, so a
/// multicart has a Nintendo logo at 0x00104, 0x40104, 0x80104, and 0xC0104 instead of
/// just the first.
///
/// Requiring three of the four rather than all four follows the reference: a cart may
/// bundle only two games plus the menu, leaving the last slot empty. All known
/// multicarts are exactly 1 MiB, so smaller images are not even considered — which is
/// what keeps an ordinary game that happens to embed a logo from being misread.
pub fn is_multicart(rom: &[u8]) -> (r: bool)
    ensures
        r == multicart_spec(rom@),
{
    if rom.len() != MULTICART_SIZE {
        return false;
    }
    let mut logos: usize = 0;
    let mut slot: usize = 0;
    while slot < 4
        invariant
            slot <= 4,
            logos == logo_slots(rom@, slot as int),
            logos <= slot,
        decreases 4 - slot,
    {
        if has_logo_at(rom, slot * MULTICART_GAME_BANKS * 0x4000) {
            logos = logos + 1;
        }
        slot = slot + 1;
    }
    logos >= 3
}

/// BANK1 is never zero: it powers on as 1, and every write zero-adjusts it. That is
/// why banks 0x00, 0x20, 0x40 and 0x60 never appear in the high window.
pub proof fn lemma_bank1_never_zero(m: Mbc1Model, address: u16, value: u8)
    requires
        m.bank1 != 0,
    ensures
        m.write_rom_spec(address, value).bank1 != 0,
        Mbc1Model::initial(m.rom.bytes, 1, 0).bank1 != 0,
{
}

/// BANK1 is five bits wide: after a write of `value` to 0x2000-0x3FFF, a plain MBC1
/// maps at 0x4000-0x7FFF the bank whose low five bits are `value`'s low five bits —
/// or 1 in place of 0 — and whose upper bits are BANK2. Every bank from 0x01 to 0x1F
/// can be chosen this way.
pub proof fn lemma_bank1_is_five_bits(m: Mbc1Model, address: u16, value: u8)
    requires
        !m.multicart,
        m.bank2 < 4,
        0x2000 <= address < 0x4000,
    ensures
        ({
            let bank = m.write_rom_spec(address, value).rom_bank_spec(0x4000);
            let low = value % 32;
            &&& bank % 32 == if low == 0 {
                1
            } else {
                low
            }
            &&& bank / 32 == m.bank2
        }),
{
    let bank2 = m.bank2;
    let b1: u8 = if value & 0x1F == 0 {
        1
    } else {
        value & 0x1F
    };
    assert(m.write_rom_spec(address, value).rom_bank_spec(0x4000) == (bank2 << 5u8) | b1);
    assert(bank2 < 4 ==> ((bank2 << 5u8) | (if value & 0x1F == 0 {
        1u8
    } else {
        value & 0x1F
    })) % 32 == (if value % 32 == 0 {
        1u8
    } else {
        value % 32
    }) && ((bank2 << 5u8) | (if value & 0x1F == 0 {
        1u8
    } else {
        value & 0x1F
    })) / 32 == bank2) by (bit_vector);
}

} // verus!
