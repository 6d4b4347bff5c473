//! Memory bank controllers: the chip on the cartridge board that makes ROMs bigger
//! than 32 KiB possible.
//!
//! The CPU has a 16-bit address bus and gives the cartridge only 32 KiB of it —
//! 0x0000-0x7FFF — plus an 8 KiB window at 0xA000-0xBFFF for save RAM. A 1 MiB game
//! obviously does not fit. The MBC sits between the cartridge's address pins and the
//! ROM chip's, and drives the ROM's *upper* address lines from registers of its own.
//! The CPU picks the low 14 bits; the mapper picks which 16 KiB bank those bits land
//! in.
//!
//! The registers are not memory-mapped in the usual sense. There is nothing to write
//! to at 0x2000 — the board decodes a write in that range as a command and latches the
//! value into a register. The written *address* selects the register and the written
//! *value* is the payload, which is why every mapper write in a game looks like
//! `ld [0x2000], a`.
//!
//! # What the chips have in common
//!
//! Every mapper here is the same three ideas in different proportions: a gate that
//! locks save RAM, one or more registers holding a bank number, and the wiring that
//! turns "bank number plus CPU address" into an offset in a chip. [`Rom`] and [`Ram`]
//! hold that last part, so each mapper module is only about its own registers.
//!
//! | | ROM max | RAM | Distinguishing feature |
//! |---|---|---|---|
//! | [`mbc1`] | 2 MiB | 32 KiB | Two bank registers, and a mode bit deciding what the second one means |
//! | [`mbc2`] | 256 KiB | 512 x 4 bits, on-chip | Registers selected by an address bit, not an address range |
//! | [`mbc3`] | 2 MiB | 32 KiB | A real-time clock that keeps running with the console off |
//! | [`mbc5`] | 8 MiB | 128 KiB | 9-bit bank number, and bank 0 is finally selectable |
//!
//! Reads never have side effects here, so [`Mbc::read_rom`] and [`Mbc::read_ram`] take
//! `&self`; only writes touch the registers. The one thing that changes without a write
//! is MBC3's clock, which is why [`Mbc::tick`] exists.
pub mod mbc1;
pub mod mbc2;
pub mod mbc3;
pub mod mbc5;

use vstd::prelude::*;
use super::header::{Header, Mapper};
use self::mbc1::{Mbc1, Mbc1Model};
use self::mbc2::{Mbc2, Mbc2Model};
use self::mbc3::{Mbc3, Mbc3Model};
use self::mbc5::{Mbc5, Mbc5Model};

verus! {

/// The size of one ROM bank: the 0x4000-0x7FFF window.
pub const ROM_BANK_SIZE: usize = 0x4000;

/// The size of one cartridge RAM bank: the 0xA000-0xBFFF window.
pub const RAM_BANK_SIZE: usize = 0x2000;

/// What the bus sees when it reads a cartridge address nothing answers.
///
/// The data bus floats high when no chip drives it, so an open bus reads as all ones.
/// Disabled save RAM behaves this way, and games rely on it to detect whether RAM is
/// present at all.
pub const OPEN_BUS: u8 = 0xFF;

/// The smallest power of two, starting from `p`, that is at least `n`.
pub open spec fn next_power_of_two(n: nat, p: nat) -> nat
    decreases (if p < n {
        n - p
    } else {
        0
    }),
{
    if p == 0 || p >= n {
        if p == 0 {
            1
        } else {
            p
        }
    } else {
        next_power_of_two(n, 2 * p)
    }
}

/// The mask a ROM of `banks` banks applies to bank numbers: one less than the
/// chip's power-of-two bank count.
pub open spec fn bank_mask_for(banks: nat) -> nat {
    (next_power_of_two(banks, 1) - 1) as nat
}

/// A ROM chip as a value.
pub struct RomModel {
    pub bytes: Seq<u8>,
    pub bank_mask: usize,
}

impl RomModel {
    /// A ROM holding `bytes`, with `banks` banks.
    pub open spec fn initial(bytes: Seq<u8>, banks: nat) -> RomModel {
        RomModel { bytes, bank_mask: bank_mask_for(banks) as usize }
    }

    /// The byte at a physical offset, or open bus past the end of the chip.
    pub open spec fn byte_at(self, offset: int) -> u8 {
        if 0 <= offset < self.bytes.len() {
            self.bytes[offset]
        } else {
            OPEN_BUS
        }
    }

    /// What a read of `address` in `bank` returns.
    pub open spec fn read_spec(self, bank: usize, address: u16) -> u8 {
        self.byte_at((bank & self.bank_mask) * 0x4000 + address % 0x4000)
    }
}

/// The ROM chip, plus how many of its address lines the mapper actually drives.
///
/// Bank numbers are *masked*, not bounds-checked. That is what the hardware does: a 256
/// KiB ROM has only four upper address lines wired, so asking for bank 0x13 on a
/// 16-bank cart gets you bank 0x03. Some games rely on the wrap, and Mooneye's
/// `rom_*` tests check for it specifically.
pub struct Rom {
    bytes: Vec<u8>,
    /// `banks - 1`, which works because every real ROM chip is a power-of-two size.
    bank_mask: usize,
}

impl View for Rom {
    type V = RomModel;

    closed spec fn view(&self) -> RomModel {
        RomModel { bytes: self.bytes@, bank_mask: self.bank_mask }
    }
}

/// Masking a bank number never makes it bigger than the mask.
proof fn lemma_masked(bank: usize, mask: usize)
    ensures
        bank & mask <= mask,
{
    assert(bank & mask <= mask) by (bit_vector);
}

/// The low 14 bits of an address are its offset in a ROM bank; the low 13 its
/// offset in a RAM bank.
proof fn lemma_bank_offsets(address: usize)
    ensures
        address & 0x3FFF == address % 0x4000,
        address & 0x1FFF == address % 0x2000,
{
    assert(address & 0x3FFF == address % 0x4000) by (bit_vector);
    assert(address & 0x1FFF == address % 0x2000) by (bit_vector);
}

impl Rom {
    /// At most 131072 banks are wired, far beyond any real cartridge.
    #[verifier::type_invariant]
    spec fn small_mask(self) -> bool {
        self.bank_mask < 0x20000
    }

    pub fn new(bytes: Vec<u8>, banks: usize) -> (r: Self)
        requires
            banks <= 0x10000,
        ensures
            r@ == RomModel::initial(bytes@, banks as nat),
    {
        let mut chip_banks: usize = 1;
        while chip_banks < banks
            invariant
                1 <= chip_banks <= 0x20000,
                banks <= 0x10000,
                next_power_of_two(banks as nat, chip_banks as nat) == next_power_of_two(
                    banks as nat,
                    1,
                ),
            decreases 0x20000 - chip_banks,
        {
            chip_banks = chip_banks * 2;
        }
        Rom { bytes, bank_mask: chip_banks - 1 }
    }

    /// The byte at a physical offset, or open bus past the end of the chip.
    pub fn byte_at(&self, offset: usize) -> (r: u8)
        ensures
            r == self@.byte_at(offset as int),
    {
        if offset < self.bytes.len() {
            self.bytes[offset]
        } else {
            OPEN_BUS
        }
    }

    /// Reads `address` from `bank`. Only the low 14 bits of the address are used, so
    /// callers can pass either window's address unchanged.
    pub fn read(&self, bank: usize, address: u16) -> (r: u8)
        ensures
            r == self@.read_spec(bank, address),
    {
        proof {
            use_type_invariant(self);
            lemma_masked(bank, self.bank_mask);
            lemma_bank_offsets(address as usize);
        }
        let offset = (bank & self.bank_mask) * ROM_BANK_SIZE + (address as usize & 0x3FFF);
        self.byte_at(offset)
    }
}

/// Save RAM as a value.
pub struct RamModel {
    pub bytes: Seq<u8>,
    pub enabled: bool,
    pub dirty: bool,
}

impl RamModel {
    /// A chip of `size` zeroed bytes, gate shut, nothing written.
    pub open spec fn initial(size: nat) -> RamModel {
        RamModel { bytes: Seq::new(size, |i: int| 0u8), enabled: false, dirty: false }
    }

    /// Where `address` in `bank` lands in the chip, or `None` if nothing answers: the
    /// chip repeats across the window and wraps past its end.
    pub open spec fn offset_spec(self, bank: int, address: u16) -> Option<int> {
        if !self.enabled || self.bytes.len() == 0 {
            None
        } else {
            Some((bank * 0x2000 + address % 0x2000) % (self.bytes.len() as int))
        }
    }

    pub open spec fn read_spec(self, bank: int, address: u16) -> u8 {
        match self.offset_spec(bank, address) {
            Some(offset) => self.bytes[offset],
            None => OPEN_BUS,
        }
    }

    pub open spec fn write_spec(self, bank: int, address: u16, value: u8) -> RamModel {
        match self.offset_spec(bank, address) {
            Some(offset) => RamModel { bytes: self.bytes.update(offset, value), dirty: true, ..self },
            None => self,
        }
    }

    pub open spec fn set_enabled_spec(self, enabled: bool) -> RamModel {
        RamModel { enabled, ..self }
    }
}

/// The cartridge's save RAM and the enable latch in front of it.
///
/// The enable latch is not a convenience: games open it around a save and shut it immediately
/// after, so that a console browning out mid-write cannot scribble on the save. Every
/// mapper implements it, and Mooneye's `bits_ramg` tests check exactly which written
/// values open it — which is *not* the same on every chip.
///
/// The RAM also remembers whether anything has been written to it since it was last
/// saved, so a save only has to be written when the game has actually changed it.
pub struct Ram {
    bytes: Vec<u8>,
    enabled: bool,
    dirty: bool,
}

impl View for Ram {
    type V = RamModel;

    closed spec fn view(&self) -> RamModel {
        RamModel { bytes: self.bytes@, enabled: self.enabled, dirty: self.dirty }
    }
}

impl Ram {
    pub fn new(size: usize) -> (r: Self)
        ensures
            r@ == RamModel::initial(size as nat),
    {
        let r = Ram { bytes: vec![0; size], enabled: false, dirty: false };
        proof {
            assert(r@.bytes =~= RamModel::initial(size as nat).bytes);
        }
        r
    }

    pub fn set_enabled(&mut self, enabled: bool)
        ensures
            final(self)@ == old(self)@.set_enabled_spec(enabled),
    {
        self.enabled = enabled;
    }

    pub fn is_present(&self) -> (r: bool)
        ensures
            r == (self@.bytes.len() > 0),
    {
        !self.bytes.is_empty()
    }

    pub fn is_enabled(&self) -> (r: bool)
        ensures
            r == self@.enabled,
    {
        self.enabled
    }

    /// Where `address` in `bank` lands in the chip, or `None` if nothing answers.
    ///
    /// The modulo mirrors the chip, because the address lines it does not have simply
    /// are not connected: 2 KiB of RAM repeats four times across the 8 KiB window, and
    /// a bank number past the end of the chip wraps to the start.
    pub fn offset(&self, bank: usize, address: u16) -> (r: Option<usize>)
        requires
            bank <= 0xFFFF,
        ensures
            r matches Some(o) ==> o < self@.bytes.len(),
            match r {
                Some(o) => self@.offset_spec(bank as int, address) == Some(o as int),
                None => self@.offset_spec(bank as int, address) is None,
            },
    {
        if !self.enabled || self.bytes.is_empty() {
            return None;
        }
        proof {
            lemma_bank_offsets(address as usize);
        }
        let offset = bank * RAM_BANK_SIZE + (address as usize & (RAM_BANK_SIZE - 1));
        Some(offset % self.bytes.len())
    }

    pub fn read(&self, bank: usize, address: u16) -> (r: u8)
        requires
            bank <= 0xFFFF,
        ensures
            r == self@.read_spec(bank as int, address),
    {
        match self.offset(bank, address) {
            Some(offset) => self.bytes[offset],
            None => OPEN_BUS,
        }
    }

    /// Writes to disabled or absent RAM are dropped, not buffered. That is the whole
    /// protection the enable latch provides.
    pub fn write(&mut self, bank: usize, address: u16, value: u8)
        requires
            bank <= 0xFFFF,
        ensures
            final(self)@ == old(self)@.write_spec(bank as int, address, value),
    {
        if let Some(offset) = self.offset(bank, address) {
            self.bytes.set(offset, value);
            self.dirty = true;
        }
    }

    /// The whole chip, as a save file holds it.
    pub fn bytes(&self) -> (r: &[u8])
        ensures
            r@ == self@.bytes,
    {
        self.bytes.as_slice()
    }

    /// Whether the game has written to the RAM since it was last saved.
    pub fn is_dirty(&self) -> (r: bool)
        ensures
            r == self@.dirty,
    {
        self.dirty
    }

    /// Records that the RAM's contents are now saved.
    pub fn mark_clean(&mut self)
        ensures
            final(self)@ == (RamModel { dirty: false, ..old(self)@ }),
    {
        self.dirty = false;
    }

    /// Fills the chip from a save. A save longer than the chip is what another
    /// emulator's file with extra state appended looks like; only the chip's share
    /// is read.
    pub fn load(&mut self, data: &[u8])
        requires
            data@.len() >= old(self)@.bytes.len(),
        ensures
            final(self)@ == (RamModel {
                bytes: data@.take(old(self)@.bytes.len() as int),
                dirty: false,
                ..old(self)@
            }),
    {
        let mut i: usize = 0;
        while i < self.bytes.len()
            invariant
                i <= self@.bytes.len(),
                self@.bytes.len() == old(self)@.bytes.len(),
                data@.len() >= self@.bytes.len(),
                self@.enabled == old(self)@.enabled,
                self@.dirty == old(self)@.dirty,
                forall|j: int|
                    0 <= j < self@.bytes.len() ==> #[trigger] self@.bytes[j] == if j < i {
                        data@[j]
                    } else {
                        old(self)@.bytes[j]
                    },
            decreases self@.bytes.len() - i,
        {
            self.bytes.set(i, data[i]);
            i = i + 1;
        }
        self.dirty = false;
        proof {
            assert(self@.bytes =~= data@.take(old(self)@.bytes.len() as int));
        }
    }

    /// Reads a physical offset directly, for a board with no gate to check.
    fn read_direct(&self, address: u16) -> (r: u8)
        requires
            self@.bytes.len() > 0,
        ensures
            r == self@.bytes[((address as int) % 0x2000) % (self@.bytes.len() as int)],
    {
        proof {
            lemma_bank_offsets(address as usize);
        }
        let offset = address as usize & (RAM_BANK_SIZE - 1);
        self.bytes[offset % self.bytes.len()]
    }

    /// Writes a physical offset directly, for a board with no gate to check.
    fn write_direct(&mut self, address: u16, value: u8)
        requires
            old(self)@.bytes.len() > 0,
        ensures
            final(self)@ == (RamModel {
                bytes: old(self)@.bytes.update(
                    ((address as int) % 0x2000) % (old(self)@.bytes.len() as int),
                    value,
                ),
                dirty: true,
                ..old(self)@
            }),
    {
        proof {
            lemma_bank_offsets(address as usize);
        }
        let offset = address as usize & (RAM_BANK_SIZE - 1);
        let wrapped = offset % self.bytes.len();
        self.bytes.set(wrapped, value);
        self.dirty = true;
    }
}

/// With the enable latch open, a byte written to cartridge RAM reads back.
pub proof fn lemma_ram_reads_back(ram: RamModel, bank: int, address: u16, value: u8)
    requires
        ram.enabled,
        ram.bytes.len() > 0,
    ensures
        ram.write_spec(bank, address, value).read_spec(bank, address) == value,
{
}

/// The enable latch hides the RAM without erasing it: with the enable latch shut, reads float high
/// and writes are dropped, and reopening it shows what was there before.
pub proof fn lemma_disabled_ram_hides_not_erases(ram: RamModel, bank: int, address: u16, value: u8)
    ensures
        ram.set_enabled_spec(false).read_spec(bank, address) == OPEN_BUS,
        ram.set_enabled_spec(false).write_spec(bank, address, value) == ram.set_enabled_spec(false),
        ram.set_enabled_spec(false).set_enabled_spec(true).bytes == ram.bytes,
{
}

/// The RAM is dirty after a write exactly when the write landed (or it already was).
pub proof fn lemma_dirty_tracks_writes(ram: RamModel, bank: int, address: u16, value: u8)
    ensures
        ram.write_spec(bank, address, value).dirty == (ram.dirty || ram.offset_spec(bank, address)
            is Some),
{
}

/// A board with no mapper, as a value.
pub struct NoMbcModel {
    pub rom: RomModel,
    pub ram: RamModel,
}

impl NoMbcModel {
    pub open spec fn read_rom_spec(self, address: u16) -> u8 {
        self.rom.byte_at(address as int)
    }

    pub open spec fn read_ram_spec(self, address: u16) -> u8 {
        if self.ram.bytes.len() == 0 {
            OPEN_BUS
        } else {
            self.ram.bytes[((address as int) % 0x2000) % (self.ram.bytes.len() as int)]
        }
    }

    pub open spec fn write_ram_spec(self, address: u16, value: u8) -> NoMbcModel {
        if self.ram.bytes.len() == 0 {
            self
        } else {
            NoMbcModel {
                ram: RamModel {
                    bytes: self.ram.bytes.update(
                        ((address as int) % 0x2000) % (self.ram.bytes.len() as int),
                        value,
                    ),
                    dirty: true,
                    ..self.ram
                },
                ..self
            }
        }
    }
}

/// No mapper: the ROM chip is wired straight to the bus.
///
/// Cartridge types 0x00, 0x08, and 0x09. At most 32 KiB of ROM, because there are no
/// spare address lines to drive, and optionally a single 8 KiB RAM chip — which has no
/// enable register either, since there is no chip to hold one, so the enable latch is simply
/// open from the start.
pub struct NoMbc {
    pub rom: Rom,
    pub ram: Ram,
}

impl View for NoMbc {
    type V = NoMbcModel;

    open spec fn view(&self) -> NoMbcModel {
        NoMbcModel { rom: self.rom@, ram: self.ram@ }
    }
}

impl NoMbc {
    pub fn read_rom(&self, address: u16) -> (r: u8)
        ensures
            r == self@.read_rom_spec(address),
    {
        // Bank 0 for both windows: the 32 KiB image is addressed flat, so bank 1 is
        // just what physically follows bank 0.
        self.rom.byte_at(address as usize)
    }

    pub fn write_rom(&mut self, address: u16, value: u8)
        ensures
            final(self)@ == old(self)@,
    {
        // Nothing to command, and ROM is read-only. Silently dropped, as on hardware.
    }

    pub fn read_ram(&self, address: u16) -> (r: u8)
        ensures
            r == self@.read_ram_spec(address),
    {
        if !self.ram.is_present() {
            return OPEN_BUS;
        }
        self.ram.read_direct(address)
    }

    pub fn write_ram(&mut self, address: u16, value: u8)
        ensures
            final(self)@ == old(self)@.write_ram_spec(address, value),
    {
        if !self.ram.is_present() {
            return;
        }
        self.ram.write_direct(address, value);
    }
}

/// A mapper as a value.
pub enum MbcModel {
    NoMbc(NoMbcModel),
    Mbc1(Mbc1Model),
    Mbc2(Mbc2Model),
    Mbc3(Mbc3Model),
    Mbc5(Mbc5Model),
}

impl MbcModel {
    /// The mapper's invariant: only MBC3's clock has one.
    pub open spec fn well_formed(self) -> bool {
        match self {
            MbcModel::Mbc3(m) => m.well_formed(),
            _ => true,
        }
    }

    pub open spec fn read_rom_spec(self, address: u16) -> u8 {
        match self {
            MbcModel::NoMbc(m) => m.read_rom_spec(address),
            MbcModel::Mbc1(m) => m.read_rom_spec(address),
            MbcModel::Mbc2(m) => m.read_rom_spec(address),
            MbcModel::Mbc3(m) => m.read_rom_spec(address),
            MbcModel::Mbc5(m) => m.read_rom_spec(address),
        }
    }

    pub open spec fn write_rom_spec(self, address: u16, value: u8) -> MbcModel {
        match self {
            MbcModel::NoMbc(m) => MbcModel::NoMbc(m),
            MbcModel::Mbc1(m) => MbcModel::Mbc1(m.write_rom_spec(address, value)),
            MbcModel::Mbc2(m) => MbcModel::Mbc2(m.write_rom_spec(address, value)),
            MbcModel::Mbc3(m) => MbcModel::Mbc3(m.write_rom_spec(address, value)),
            MbcModel::Mbc5(m) => MbcModel::Mbc5(m.write_rom_spec(address, value)),
        }
    }

    pub open spec fn read_ram_spec(self, address: u16) -> u8 {
        match self {
            MbcModel::NoMbc(m) => m.read_ram_spec(address),
            MbcModel::Mbc1(m) => m.read_ram_spec(address),
            MbcModel::Mbc2(m) => m.read_ram_spec(address),
            MbcModel::Mbc3(m) => m.read_ram_spec(address),
            MbcModel::Mbc5(m) => m.read_ram_spec(address),
        }
    }

    pub open spec fn write_ram_spec(self, address: u16, value: u8) -> MbcModel {
        match self {
            MbcModel::NoMbc(m) => MbcModel::NoMbc(m.write_ram_spec(address, value)),
            MbcModel::Mbc1(m) => MbcModel::Mbc1(m.write_ram_spec(address, value)),
            MbcModel::Mbc2(m) => MbcModel::Mbc2(m.write_ram_spec(address, value)),
            MbcModel::Mbc3(m) => MbcModel::Mbc3(m.write_ram_spec(address, value)),
            MbcModel::Mbc5(m) => MbcModel::Mbc5(m.write_ram_spec(address, value)),
        }
    }

    /// One M-cycle: only MBC3's clock notices.
    pub open spec fn tick_spec(self) -> MbcModel {
        match self {
            MbcModel::Mbc3(m) => MbcModel::Mbc3(m.tick_spec()),
            _ => self,
        }
    }

    /// The save RAM the mapper drives.
    /// The cartridge's ROM image, as the mapper holds it.
    pub open spec fn rom(self) -> RomModel {
        match self {
            MbcModel::NoMbc(m) => m.rom,
            MbcModel::Mbc1(m) => m.rom,
            MbcModel::Mbc2(m) => m.rom,
            MbcModel::Mbc3(m) => m.rom,
            MbcModel::Mbc5(m) => m.rom,
        }
    }

    pub open spec fn ram(self) -> RamModel {
        match self {
            MbcModel::NoMbc(m) => m.ram,
            MbcModel::Mbc1(m) => m.ram,
            MbcModel::Mbc2(m) => m.ram,
            MbcModel::Mbc3(m) => m.ram,
            MbcModel::Mbc5(m) => m.ram,
        }
    }

    /// The mapper with its save RAM replaced.
    pub open spec fn with_ram(self, ram: RamModel) -> MbcModel {
        match self {
            MbcModel::NoMbc(m) => MbcModel::NoMbc(NoMbcModel { ram, ..m }),
            MbcModel::Mbc1(m) => MbcModel::Mbc1(Mbc1Model { ram, ..m }),
            MbcModel::Mbc2(m) => MbcModel::Mbc2(Mbc2Model { ram, ..m }),
            MbcModel::Mbc3(m) => MbcModel::Mbc3(Mbc3Model { ram, ..m }),
            MbcModel::Mbc5(m) => MbcModel::Mbc5(Mbc5Model { ram, ..m }),
        }
    }

    /// The mapper a header calls for, freshly powered on, or `None` if it is not one
    /// we emulate.
    pub open spec fn for_header(
        mapper: Mapper,
        rom: Seq<u8>,
        banks: nat,
        ram_size: nat,
        has_timer: bool,
    ) -> Option<MbcModel> {
        match mapper {
            Mapper::NoMbc => Some(
                MbcModel::NoMbc(
                    NoMbcModel {
                        rom: RomModel::initial(rom, banks),
                        ram: RamModel::initial(ram_size),
                    },
                ),
            ),
            Mapper::Mbc1 => Some(MbcModel::Mbc1(Mbc1Model::initial(rom, banks, ram_size))),
            Mapper::Mbc2 => Some(MbcModel::Mbc2(Mbc2Model::initial(rom, banks))),
            Mapper::Mbc3 => Some(MbcModel::Mbc3(Mbc3Model::initial(rom, banks, ram_size, has_timer))),
            Mapper::Mbc5 => Some(MbcModel::Mbc5(Mbc5Model::initial(rom, banks, ram_size))),
            _ => None,
        }
    }
}

/// A cartridge's mapper chip.
///
/// The bus decodes an address to one of these operations and the mapper decides what it
/// means. Everything about banking lives behind this type, so the bus never has to
/// know which chip it is talking to.
pub enum Mbc {
    NoMbc(NoMbc),
    Mbc1(Mbc1),
    Mbc2(Mbc2),
    Mbc3(Mbc3),
    Mbc5(Mbc5),
}

impl View for Mbc {
    type V = MbcModel;

    open spec fn view(&self) -> MbcModel {
        match self {
            Mbc::NoMbc(m) => MbcModel::NoMbc(m@),
            Mbc::Mbc1(m) => MbcModel::Mbc1(m@),
            Mbc::Mbc2(m) => MbcModel::Mbc2(m@),
            Mbc::Mbc3(m) => MbcModel::Mbc3(m@),
            Mbc::Mbc5(m) => MbcModel::Mbc5(m@),
        }
    }
}

impl Mbc {
    /// Reads from 0x0000-0x7FFF.
    pub fn read_rom(&self, address: u16) -> (r: u8)
        ensures
            r == self@.read_rom_spec(address),
    {
        match self {
            Mbc::NoMbc(m) => m.read_rom(address),
            Mbc::Mbc1(m) => m.read_rom(address),
            Mbc::Mbc2(m) => m.read_rom(address),
            Mbc::Mbc3(m) => m.read_rom(address),
            Mbc::Mbc5(m) => m.read_rom(address),
        }
    }

    /// A write to 0x0000-0x7FFF: always a mapper command, never a store.
    pub fn write_rom(&mut self, address: u16, value: u8)
        requires
            address < 0x8000,
            old(self)@.well_formed(),
        ensures
            final(self)@ == old(self)@.write_rom_spec(address, value),
            final(self)@.well_formed(),
    {
        match self {
            Mbc::NoMbc(m) => m.write_rom(address, value),
            Mbc::Mbc1(m) => m.write_rom(address, value),
            Mbc::Mbc2(m) => m.write_rom(address, value),
            Mbc::Mbc3(m) => m.write_rom(address, value),
            Mbc::Mbc5(m) => m.write_rom(address, value),
        }
    }

    /// Reads from 0xA000-0xBFFF.
    pub fn read_ram(&self, address: u16) -> (r: u8)
        ensures
            r == self@.read_ram_spec(address),
    {
        match self {
            Mbc::NoMbc(m) => m.read_ram(address),
            Mbc::Mbc1(m) => m.read_ram(address),
            Mbc::Mbc2(m) => m.read_ram(address),
            Mbc::Mbc3(m) => m.read_ram(address),
            Mbc::Mbc5(m) => m.read_ram(address),
        }
    }

    /// Writes to 0xA000-0xBFFF.
    pub fn write_ram(&mut self, address: u16, value: u8)
        requires
            old(self)@.well_formed(),
        ensures
            final(self)@ == old(self)@.write_ram_spec(address, value),
            final(self)@.well_formed(),
    {
        match self {
            Mbc::NoMbc(m) => m.write_ram(address, value),
            Mbc::Mbc1(m) => m.write_ram(address, value),
            Mbc::Mbc2(m) => m.write_ram(address, value),
            Mbc::Mbc3(m) => m.write_ram(address, value),
            Mbc::Mbc5(m) => m.write_ram(address, value),
        }
    }

    /// Advances the mapper by one M-cycle.
    ///
    /// Only MBC3's clock needs this. The cartridge is on the same clock as the rest
    /// of the machine, so a paused emulator has a paused cartridge.
    pub fn tick(&mut self)
        requires
            old(self)@.well_formed(),
        ensures
            final(self)@ == old(self)@.tick_spec(),
            final(self)@.well_formed(),
    {
        match self {
            Mbc::Mbc3(m) => m.tick(),
            _ => {},
        }
    }

    /// The save RAM behind the mapper.
    pub fn ram(&self) -> (r: Option<&Ram>)
        ensures
            r matches Some(ram) && ram@ == self@.ram(),
    {
        match self {
            Mbc::NoMbc(m) => Some(&m.ram),
            Mbc::Mbc1(m) => Some(m.ram()),
            Mbc::Mbc2(m) => Some(m.ram()),
            Mbc::Mbc3(m) => Some(m.ram()),
            Mbc::Mbc5(m) => Some(m.ram()),
        }
    }

    /// Replaces the save RAM's contents from a save file.
    pub fn load_ram(&mut self, data: &[u8])
        requires
            data@.len() >= old(self)@.ram().bytes.len(),
            old(self)@.well_formed(),
        ensures
            final(self)@ == old(self)@.with_ram(
                RamModel {
                    bytes: data@.take(old(self)@.ram().bytes.len() as int),
                    dirty: false,
                    ..old(self)@.ram()
                },
            ),
            final(self)@.well_formed(),
    {
        match self {
            Mbc::NoMbc(m) => m.ram.load(data),
            Mbc::Mbc1(m) => m.ram_mut().load(data),
            Mbc::Mbc2(m) => m.ram_mut().load(data),
            Mbc::Mbc3(m) => m.ram_mut().load(data),
            Mbc::Mbc5(m) => m.ram_mut().load(data),
        }
    }

    /// Records that the save RAM has been written out.
    pub fn mark_ram_clean(&mut self)
        requires
            old(self)@.well_formed(),
        ensures
            final(self)@ == old(self)@.with_ram(RamModel { dirty: false, ..old(self)@.ram() }),
            final(self)@.well_formed(),
    {
        match self {
            Mbc::NoMbc(m) => m.ram.mark_clean(),
            Mbc::Mbc1(m) => m.ram_mut().mark_clean(),
            Mbc::Mbc2(m) => m.ram_mut().mark_clean(),
            Mbc::Mbc3(m) => m.ram_mut().mark_clean(),
            Mbc::Mbc5(m) => m.ram_mut().mark_clean(),
        }
    }
}

/// A cartridge whose mapper we do not emulate yet.
#[derive(Debug, Clone, Copy, PartialEq, Eq, Structural)]
pub struct UnsupportedMapper(pub Mapper);

/// Builds the mapper a cartridge's header calls for.
///
/// The ROM image is moved in rather than borrowed: the mapper outlives the load, and
/// giving it ownership avoids threading a lifetime through the bus and the CPU.
pub fn for_cartridge(header: &Header, rom: Vec<u8>) -> (r: Result<Mbc, UnsupportedMapper>)
    requires
        header.rom_size / 0x4000 <= 0x10000,
    ensures
        match MbcModel::for_header(
            header.cartridge_type.mapper,
            rom@,
            (header.rom_size / 0x4000) as nat,
            header.ram_size as nat,
            header.cartridge_type.has_timer,
        ) {
            Some(m) => r matches Ok(mbc) && mbc@ == m && mbc@.well_formed(),
            None => r == Err::<Mbc, UnsupportedMapper>(UnsupportedMapper(header.cartridge_type.mapper)),
        },
{
    let banks = header.rom_banks();
    let ram_size = header.ram_size;
    match header.cartridge_type.mapper {
        Mapper::NoMbc => Ok(Mbc::NoMbc(NoMbc { rom: Rom::new(rom, banks), ram: Ram::new(ram_size) })),
        // MBC1 multicarts share MBC1's type byte and can only be told apart by looking
        // at the image itself; see `mbc1::is_multicart`.
        Mapper::Mbc1 => Ok(Mbc::Mbc1(Mbc1::new(rom, banks, ram_size))),
        Mapper::Mbc2 => Ok(Mbc::Mbc2(Mbc2::new(rom, banks, ram_size))),
        Mapper::Mbc3 => Ok(
            Mbc::Mbc3(Mbc3::new(rom, banks, ram_size, header.cartridge_type.has_timer)),
        ),
        Mapper::Mbc5 => Ok(Mbc::Mbc5(Mbc5::new(rom, banks, ram_size))),
        other => Err(UnsupportedMapper(other)),
    }
}

/// A write to the ROM area is a command to the mapper, never a store: the ROM image
/// and the save RAM's bytes are as they were, and the RAM is no dirtier.
pub proof fn lemma_rom_writes_are_commands(m: MbcModel, address: u16, value: u8)
    ensures
        m.write_rom_spec(address, value).ram().bytes == m.ram().bytes,
        m.write_rom_spec(address, value).ram().dirty == m.ram().dirty,
        m.write_rom_spec(address, value).rom() == m.rom(),
        m is NoMbc ==> m.write_rom_spec(address, value) == m,
{
}

/// The low bits of a register value, as arithmetic.
pub proof fn lemma_low_bits(value: u8)
    ensures
        value & 0x7F == value % 128,
        value & 0x1F == value % 32,
        value & 0x0F == value % 16,
        value & 0x01 == value % 2,
{
    assert(value & 0x7F == value % 128 && value & 0x1F == value % 32 && value & 0x0F == value % 16
        && value & 0x01 == value % 2) by (bit_vector);
}

} // verus!
