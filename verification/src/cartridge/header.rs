//! Parsing of the cartridge header at 0x0100-0x014F.
//!
//! Every Game Boy ROM starts with a fixed-layout header describing the game: its
//! title, which mapper chip ("MBC") the cartridge board uses, and how much ROM and
//! RAM is on the board. The real boot ROM reads part of this area to decide whether
//! to boot at all; we read it to decide how to wire up the cartridge.
use vstd::prelude::*;
use vstd::string::StrSliceExecFns;
use crate::text::{ascii_chars, decimal_digits, decimal_text, hex_byte_text, hex_digit, lossy_text};
use super::offset;

verus! {

/// The Nintendo logo bitmap stored at 0x0104-0x0133.
///
/// The boot ROM compares the cartridge's copy against its own and halts forever if
/// they differ — this was the copy-protection scheme, since shipping the bytes meant
/// reproducing Nintendo's trademarked logo. We only use it as a sanity check that we
/// are actually looking at a Game Boy ROM.
pub const NINTENDO_LOGO: [u8; 48] = [
    0xCE, 0xED, 0x66, 0x66, 0xCC, 0x0D, 0x00, 0x0B, 0x03, 0x73, 0x00, 0x83, 0x00, 0x0C, 0x00, 0x0D,
    0x00, 0x08, 0x11, 0x1F, 0x88, 0x89, 0x00, 0x0E, 0xDC, 0xCC, 0x6E, 0xE6, 0xDD, 0xDD, 0xD9, 0x99,
    0xBB, 0xBB, 0x67, 0x63, 0x6E, 0x0E, 0xEC, 0xCC, 0xDD, 0xDC, 0x99, 0x9F, 0xBB, 0xB9, 0x33, 0x3E,
];

/// Which mapper chip the cartridge board carries, and what else is on the board.
///
/// The mapper sits between the CPU and the ROM chip and handles bank switching: the
/// CPU can only address 32 KiB of cartridge ROM at once, so anything larger needs
/// hardware to swap which 16 KiB chunk appears at 0x4000-0x7FFF. Writes into the ROM
/// address range don't change memory — they're commands to this chip.
#[derive(Debug, Clone, Copy, PartialEq, Eq, Structural)]
pub enum Mapper {
    /// No mapper at all: up to 32 KiB of ROM wired straight to the bus.
    NoMbc,
    Mbc1,
    Mbc2,
    Mbc3,
    Mbc5,
    Mbc6,
    Mbc7,
    Mmm01,
    HuC1,
    HuC3,
    PocketCamera,
    Tama5,
}

impl Mapper {
    /// The mapper's name as the header summary prints it; a board with no mapper is
    /// "None".
    pub open spec fn name_spec(self) -> Seq<char> {
        match self {
            Mapper::NoMbc => "None"@,
            Mapper::Mbc1 => "Mbc1"@,
            Mapper::Mbc2 => "Mbc2"@,
            Mapper::Mbc3 => "Mbc3"@,
            Mapper::Mbc5 => "Mbc5"@,
            Mapper::Mbc6 => "Mbc6"@,
            Mapper::Mbc7 => "Mbc7"@,
            Mapper::Mmm01 => "Mmm01"@,
            Mapper::HuC1 => "HuC1"@,
            Mapper::HuC3 => "HuC3"@,
            Mapper::PocketCamera => "PocketCamera"@,
            Mapper::Tama5 => "Tama5"@,
        }
    }

    pub fn name(self) -> (r: &'static str)
        ensures
            r@ == self.name_spec(),
    {
        match self {
            Mapper::NoMbc => "None",
            Mapper::Mbc1 => "Mbc1",
            Mapper::Mbc2 => "Mbc2",
            Mapper::Mbc3 => "Mbc3",
            Mapper::Mbc5 => "Mbc5",
            Mapper::Mbc6 => "Mbc6",
            Mapper::Mbc7 => "Mbc7",
            Mapper::Mmm01 => "Mmm01",
            Mapper::HuC1 => "HuC1",
            Mapper::HuC3 => "HuC3",
            Mapper::PocketCamera => "PocketCamera",
            Mapper::Tama5 => "Tama5",
        }
    }
}

/// The decoded contents of byte 0x0147, which packs the mapper together with flags
/// for the optional extras on the board.
#[derive(Debug, Clone, Copy, PartialEq, Eq, Structural)]
pub struct CartridgeType {
    pub mapper: Mapper,
    /// Board has RAM in the 0xA000-0xBFFF window.
    pub has_ram: bool,
    /// RAM is backed by a battery, so saves survive power-off.
    pub has_battery: bool,
    /// Board has a timer chip (MBC3's real-time clock).
    pub has_timer: bool,
    /// Board has a rumble motor (drives one of MBC5's bank register bits).
    pub has_rumble: bool,
    /// Board has an accelerometer (MBC7).
    pub has_sensor: bool,
}

/// A board description, flag by flag.
pub open spec fn board(
    mapper: Mapper,
    ram: bool,
    battery: bool,
    timer: bool,
    rumble: bool,
    sensor: bool,
) -> CartridgeType {
    CartridgeType {
        mapper,
        has_ram: ram,
        has_battery: battery,
        has_timer: timer,
        has_rumble: rumble,
        has_sensor: sensor,
    }
}

/// What byte 0x0147 says about the board, or `None` for unassigned values.
pub open spec fn cartridge_type_spec(byte: u8) -> Option<CartridgeType> {
    match byte {
        0x00 => Some(board(Mapper::NoMbc, false, false, false, false, false)),
        0x01 => Some(board(Mapper::Mbc1, false, false, false, false, false)),
        0x02 => Some(board(Mapper::Mbc1, true, false, false, false, false)),
        0x03 => Some(board(Mapper::Mbc1, true, true, false, false, false)),
        0x05 => Some(board(Mapper::Mbc2, true, false, false, false, false)),
        0x06 => Some(board(Mapper::Mbc2, true, true, false, false, false)),
        0x08 => Some(board(Mapper::NoMbc, true, false, false, false, false)),
        0x09 => Some(board(Mapper::NoMbc, true, true, false, false, false)),
        0x0B => Some(board(Mapper::Mmm01, false, false, false, false, false)),
        0x0C => Some(board(Mapper::Mmm01, true, false, false, false, false)),
        0x0D => Some(board(Mapper::Mmm01, true, true, false, false, false)),
        0x0F => Some(board(Mapper::Mbc3, false, true, true, false, false)),
        0x10 => Some(board(Mapper::Mbc3, true, true, true, false, false)),
        0x11 => Some(board(Mapper::Mbc3, false, false, false, false, false)),
        0x12 => Some(board(Mapper::Mbc3, true, false, false, false, false)),
        0x13 => Some(board(Mapper::Mbc3, true, true, false, false, false)),
        0x19 => Some(board(Mapper::Mbc5, false, false, false, false, false)),
        0x1A => Some(board(Mapper::Mbc5, true, false, false, false, false)),
        0x1B => Some(board(Mapper::Mbc5, true, true, false, false, false)),
        0x1C => Some(board(Mapper::Mbc5, false, false, false, true, false)),
        0x1D => Some(board(Mapper::Mbc5, true, false, false, true, false)),
        0x1E => Some(board(Mapper::Mbc5, true, true, false, true, false)),
        0x20 => Some(board(Mapper::Mbc6, true, true, false, false, false)),
        0x22 => Some(board(Mapper::Mbc7, true, true, false, true, true)),
        0xFC => Some(board(Mapper::PocketCamera, true, true, false, false, false)),
        0xFD => Some(board(Mapper::Tama5, true, true, false, false, false)),
        0xFE => Some(board(Mapper::HuC3, false, false, false, false, false)),
        0xFF => Some(board(Mapper::HuC1, true, true, false, false, false)),
        _ => None,
    }
}

impl CartridgeType {
    /// Decodes byte 0x0147. Returns `None` for unassigned values.
    ///
    /// This is a lookup table rather than bit decoding: the encoding grew by
    /// accretion as new boards shipped, so the values are not systematic.
    pub fn from_byte(byte: u8) -> (r: Option<Self>)
        ensures
            r == cartridge_type_spec(byte),
    {
        // (mapper, ram, battery, timer, rumble, sensor)
        let (mapper, ram, battery, timer, rumble, sensor) = match byte {
            0x00 => (Mapper::NoMbc, false, false, false, false, false),
            0x01 => (Mapper::Mbc1, false, false, false, false, false),
            0x02 => (Mapper::Mbc1, true, false, false, false, false),
            0x03 => (Mapper::Mbc1, true, true, false, false, false),
            // MBC2's RAM is built into the mapper chip itself, so the type byte
            // has no separate "+RAM" variant: it is always present.
            0x05 => (Mapper::Mbc2, true, false, false, false, false),
            0x06 => (Mapper::Mbc2, true, true, false, false, false),
            0x08 => (Mapper::NoMbc, true, false, false, false, false),
            0x09 => (Mapper::NoMbc, true, true, false, false, false),
            0x0B => (Mapper::Mmm01, false, false, false, false, false),
            0x0C => (Mapper::Mmm01, true, false, false, false, false),
            0x0D => (Mapper::Mmm01, true, true, false, false, false),
            0x0F => (Mapper::Mbc3, false, true, true, false, false),
            0x10 => (Mapper::Mbc3, true, true, true, false, false),
            0x11 => (Mapper::Mbc3, false, false, false, false, false),
            0x12 => (Mapper::Mbc3, true, false, false, false, false),
            0x13 => (Mapper::Mbc3, true, true, false, false, false),
            0x19 => (Mapper::Mbc5, false, false, false, false, false),
            0x1A => (Mapper::Mbc5, true, false, false, false, false),
            0x1B => (Mapper::Mbc5, true, true, false, false, false),
            0x1C => (Mapper::Mbc5, false, false, false, true, false),
            0x1D => (Mapper::Mbc5, true, false, false, true, false),
            0x1E => (Mapper::Mbc5, true, true, false, true, false),
            0x20 => (Mapper::Mbc6, true, true, false, false, false),
            0x22 => (Mapper::Mbc7, true, true, false, true, true),
            0xFC => (Mapper::PocketCamera, true, true, false, false, false),
            0xFD => (Mapper::Tama5, true, true, false, false, false),
            0xFE => (Mapper::HuC3, false, false, false, false, false),
            0xFF => (Mapper::HuC1, true, true, false, false, false),
            _ => return None,
        };
        Some(
            CartridgeType {
                mapper,
                has_ram: ram,
                has_battery: battery,
                has_timer: timer,
                has_rumble: rumble,
                has_sensor: sensor,
            },
        )
    }
}

/// Things that can be wrong with a ROM file.
#[derive(Debug, Clone, Copy, PartialEq, Eq, Structural)]
pub enum HeaderError {
    /// File is too short to even contain a header.
    TooShort { len: usize },
    /// The logo bytes at 0x0104-0x0133 don't match — probably not a Game Boy ROM.
    BadLogo,
    /// Byte 0x0147 holds a value with no assigned meaning.
    UnknownCartridgeType(u8),
    /// Byte 0x0148 holds a value with no assigned meaning.
    UnknownRomSize(u8),
    /// Byte 0x0149 holds a value with no assigned meaning.
    UnknownRamSize(u8),
    /// The file's length disagrees with the size declared in the header.
    RomSizeMismatch { declared: usize, actual: usize },
}

impl HeaderError {
    /// The explanation a person reads.
    pub open spec fn message_spec(self) -> Seq<char> {
        match self {
            HeaderError::TooShort { len } => "file is "@ + ascii_chars(decimal_digits(len as nat))
                + " bytes, too short to contain a cartridge header (need at least 0x0150)"@,
            HeaderError::BadLogo => "Nintendo logo at 0x0104-0x0133 is wrong; not a Game Boy ROM?"@,
            HeaderError::UnknownCartridgeType(b) => "unknown cartridge type 0x"@ + ascii_chars(
                seq![hex_digit(b / 16), hex_digit(b % 16)],
            ) + " at 0x0147"@,
            HeaderError::UnknownRomSize(b) => "unknown ROM size 0x"@ + ascii_chars(
                seq![hex_digit(b / 16), hex_digit(b % 16)],
            ) + " at 0x0148"@,
            HeaderError::UnknownRamSize(b) => "unknown RAM size 0x"@ + ascii_chars(
                seq![hex_digit(b / 16), hex_digit(b % 16)],
            ) + " at 0x0149"@,
            HeaderError::RomSizeMismatch { declared, actual } => "header declares "@ + ascii_chars(
                decimal_digits(declared as nat),
            ) + " bytes of ROM but the file is "@ + ascii_chars(decimal_digits(actual as nat))
                + " bytes"@,
        }
    }

    /// The explanation a person reads.
    pub fn message(&self) -> (r: String)
        ensures
            r@ == self.message_spec(),
    {
        match self {
            HeaderError::TooShort { len } => {
                let number = decimal_text(*len);
                String::from_str("file is ").concat(number.as_str()).concat(
                    " bytes, too short to contain a cartridge header (need at least 0x0150)",
                )
            },
            HeaderError::BadLogo => String::from_str(
                "Nintendo logo at 0x0104-0x0133 is wrong; not a Game Boy ROM?",
            ),
            HeaderError::UnknownCartridgeType(b) => {
                let number = hex_byte_text(*b);
                String::from_str("unknown cartridge type 0x").concat(number.as_str()).concat(
                    " at 0x0147",
                )
            },
            HeaderError::UnknownRomSize(b) => {
                let number = hex_byte_text(*b);
                String::from_str("unknown ROM size 0x").concat(number.as_str()).concat(" at 0x0148")
            },
            HeaderError::UnknownRamSize(b) => {
                let number = hex_byte_text(*b);
                String::from_str("unknown RAM size 0x").concat(number.as_str()).concat(" at 0x0149")
            },
            HeaderError::RomSizeMismatch { declared, actual } => {
                let declared = decimal_text(*declared);
                let actual = decimal_text(*actual);
                String::from_str("header declares ").concat(declared.as_str()).concat(
                    " bytes of ROM but the file is ",
                ).concat(actual.as_str()).concat(" bytes")
            },
        }
    }
}

/// `n` in decimal, as text.
pub open spec fn decimal(n: int) -> Seq<char> {
    ascii_chars(decimal_digits(n as nat))
}

/// The ROM size byte 0x0148 decodes to: `32 KiB << n` for n up to 8.
pub open spec fn rom_size_spec(byte: u8) -> Option<usize> {
    if byte <= 8 {
        Some((0x8000 * vstd::arithmetic::power2::pow2(byte as nat)) as usize)
    } else {
        None
    }
}

/// The RAM size byte 0x0149 decodes to, for a board with `mapper`.
pub open spec fn ram_size_spec(byte: u8, mapper: Mapper) -> Option<usize> {
    if mapper == Mapper::Mbc2 {
        if byte == 0 {
            Some(512)
        } else {
            None
        }
    } else {
        match byte {
            0x00 => Some(0),
            0x01 => Some(0),
            0x02 => Some(0x2000),
            0x03 => Some(0x8000),
            0x04 => Some(0x20000),
            0x05 => Some(0x10000),
            _ => None,
        }
    }
}

/// Whether the logo sits at `base + 0x0104` in `rom`.
pub open spec fn logo_at(rom: Seq<u8>, base: int) -> bool {
    &&& rom.len() >= base + 0x0134
    &&& forall|i: int| 0 <= i < 48 ==> #[trigger] rom[base + 0x0104 + i] == NINTENDO_LOGO@[i]
}

/// A title byte: ASCII, printable, not NUL.
pub open spec fn title_byte(b: u8) -> bool {
    0x20 <= b < 0x7F
}

/// Where the run of title bytes starting at `i` ends.
pub open spec fn title_run_end(field: Seq<u8>, i: int) -> int
    decreases field.len() - i,
{
    if i < 0 || i >= field.len() || !title_byte(field[i]) {
        i
    } else {
        title_run_end(field, i + 1)
    }
}

/// The length of the first `n` bytes with trailing spaces removed.
pub open spec fn without_trailing_spaces(field: Seq<u8>, n: int) -> int
    decreases n,
{
    if n > 0 && field[n - 1] == 0x20 {
        without_trailing_spaces(field, n - 1)
    } else {
        n
    }
}

/// The title a 16-byte field holds: its leading printable ASCII, right-trimmed.
pub open spec fn title_spec(field: Seq<u8>) -> Seq<char> {
    ascii_chars(field.take(without_trailing_spaces(field, title_run_end(field, 0))))
}

/// Visible ASCII, excluding space.
pub open spec fn graphic_byte(b: u8) -> bool {
    0x21 <= b <= 0x7E
}

/// The publisher code: the two-character code at 0x0144 when byte 0x014B is 0x33
/// and both are visible characters, else byte 0x014B in two hex digits.
pub open spec fn licensee_spec(rom: Seq<u8>) -> Seq<char> {
    let old = rom[0x014B];
    if old == 0x33 && graphic_byte(rom[0x0144]) && graphic_byte(rom[0x0145]) {
        ascii_chars(seq![rom[0x0144], rom[0x0145]])
    } else {
        ascii_chars(seq![hex_digit(old / 16), hex_digit(old % 16)])
    }
}

/// The boot ROM's header checksum over 0x0134 up to `end`: `x = x - byte - 1` for
/// each byte, wrapping.
pub open spec fn header_checksum_spec(rom: Seq<u8>, end: int) -> u8
    decreases end - 0x0134,
{
    if end <= 0x0134 {
        0
    } else {
        ((header_checksum_spec(rom, end - 1) - rom[end - 1] - 1) % 256) as u8
    }
}

/// The 16-bit wrapping sum of the first `n` bytes, skipping the two checksum bytes.
pub open spec fn global_checksum_spec(rom: Seq<u8>, n: int) -> u16
    decreases n,
{
    if n <= 0 {
        0
    } else {
        let earlier = global_checksum_spec(rom, n - 1);
        if n - 1 == 0x014E || n - 1 == 0x014F {
            earlier
        } else {
            ((earlier + rom[n - 1]) % 65536) as u16
        }
    }
}

/// The first thing wrong with `rom` as a cartridge image, checked in order: length,
/// logo, cartridge type, ROM size, ROM size against the file, RAM size.
pub open spec fn header_error(rom: Seq<u8>) -> Option<HeaderError> {
    if rom.len() < 0x0150 {
        Some(HeaderError::TooShort { len: rom.len() as usize })
    } else if !logo_at(rom, 0) {
        Some(HeaderError::BadLogo)
    } else if cartridge_type_spec(rom[0x0147]) is None {
        Some(HeaderError::UnknownCartridgeType(rom[0x0147]))
    } else if rom_size_spec(rom[0x0148]) is None {
        Some(HeaderError::UnknownRomSize(rom[0x0148]))
    } else if rom_size_spec(rom[0x0148]).unwrap() != rom.len() {
        Some(
            HeaderError::RomSizeMismatch {
                declared: rom_size_spec(rom[0x0148]).unwrap(),
                actual: rom.len() as usize,
            },
        )
    } else if ram_size_spec(rom[0x0149], cartridge_type_spec(rom[0x0147]).unwrap().mapper) is None {
        Some(HeaderError::UnknownRamSize(rom[0x0149]))
    } else {
        None
    }
}

/// A parsed cartridge header.
#[derive(Debug, Clone)]
pub struct Header {
    /// Game title from 0x0134, trimmed of padding. Later cartridges shortened this
    /// field to make room for the manufacturer code and CGB flag, so we stop at the
    /// first NUL or non-ASCII byte rather than assuming a fixed length.
    pub title: String,
    pub cartridge_type: CartridgeType,
    /// Total ROM size in bytes, decoded from 0x0148.
    pub rom_size: usize,
    /// Total cartridge RAM size in bytes, decoded from 0x0149.
    pub ram_size: usize,
    /// Whether the cartridge claims Super Game Boy support (0x0146 == 0x03).
    pub sgb_support: bool,
    /// Sold in Japan (0x014A == 0x00) or overseas.
    pub japanese: bool,
    /// Publisher code. Cartridges made from 1998 on set 0x014B to 0x33 and put a
    /// two-character ASCII code at 0x0144; older ones use a single byte at 0x014B.
    pub licensee: String,
    /// Version number of the game, from 0x014C. Usually 0.
    pub version: u8,
    /// Checksum byte at 0x014D and whether it matches what we computed.
    pub header_checksum: u8,
    pub header_checksum_valid: bool,
    /// Big-endian checksum at 0x014E-0x014F and whether it matches.
    ///
    /// Nothing on real hardware verifies this one, and some official games ship with
    /// it wrong, so a mismatch is informational only.
    pub global_checksum: u16,
    pub global_checksum_valid: bool,
}

impl Header {
    /// What a header parsed from `rom` holds, field by field.
    pub open spec fn describes(self, rom: Seq<u8>) -> bool {
        let cartridge_type = cartridge_type_spec(rom[0x0147]).unwrap();
        &&& self.title@ == title_spec(rom.subrange(0x0134, 0x0144))
        &&& self.cartridge_type == cartridge_type
        &&& self.rom_size == rom_size_spec(rom[0x0148]).unwrap()
        &&& self.ram_size == ram_size_spec(rom[0x0149], cartridge_type.mapper).unwrap()
        &&& self.sgb_support == (rom[0x0146] == 0x03)
        &&& self.japanese == (rom[0x014A] == 0x00)
        &&& self.licensee@ == licensee_spec(rom)
        &&& self.version == rom[0x014C]
        &&& self.header_checksum == rom[0x014D]
        &&& self.header_checksum_valid == (header_checksum_spec(rom, 0x014D) == rom[0x014D])
        &&& self.global_checksum == 256 * rom[0x014E] + rom[0x014F]
        &&& self.global_checksum_valid == (global_checksum_spec(rom, rom.len() as int)
            == self.global_checksum)
    }

    /// Parses the header out of a full ROM image.
    ///
    /// Rejects a ROM whose declared size disagrees with the file length, since every
    /// later assumption about bank numbering depends on that size being truthful.
    /// The two checksums are recorded rather than enforced — see the field docs.
    pub fn parse(rom: &[u8]) -> (r: Result<Self, HeaderError>)
        ensures
            r is Err <==> header_error(rom@) is Some,
            r matches Err(e) ==> header_error(rom@) == Some(e),
            r matches Ok(h) ==> h.describes(rom@),
    {
        if rom.len() < offset::HEADER_END {
            return Err(HeaderError::TooShort { len: rom.len() });
        }
        if !has_logo_at(rom, 0) {
            return Err(HeaderError::BadLogo);
        }
        let type_byte = rom[offset::CARTRIDGE_TYPE];
        let cartridge_type = match CartridgeType::from_byte(type_byte) {
            Some(t) => t,
            None => return Err(HeaderError::UnknownCartridgeType(type_byte)),
        };
        let rom_size_byte = rom[offset::ROM_SIZE];
        let rom_size = match decode_rom_size(rom_size_byte) {
            Some(size) => size,
            None => return Err(HeaderError::UnknownRomSize(rom_size_byte)),
        };
        if rom_size != rom.len() {
            return Err(HeaderError::RomSizeMismatch { declared: rom_size, actual: rom.len() });
        }
        let ram_size_byte = rom[offset::RAM_SIZE];
        let ram_size = match decode_ram_size(ram_size_byte, cartridge_type.mapper) {
            Some(size) => size,
            None => return Err(HeaderError::UnknownRamSize(ram_size_byte)),
        };

        let header_checksum = rom[offset::HEADER_CHECKSUM];
        let global_checksum = (rom[offset::GLOBAL_CHECKSUM] as u16) * 256 + rom[offset::GLOBAL_CHECKSUM
            + 1] as u16;
        let title = parse_title(vstd::slice::slice_subrange(rom, offset::TITLE, offset::NEW_LICENSEE));
        let licensee = parse_licensee(rom);
        let header_checksum_valid = compute_header_checksum(rom) == header_checksum;
        let global_checksum_valid = compute_global_checksum(rom) == global_checksum;
        Ok(
            Header {
                title,
                cartridge_type,
                rom_size,
                ram_size,
                sgb_support: rom[offset::SGB_FLAG] == 0x03,
                japanese: rom[offset::DESTINATION] == 0x00,
                licensee,
                version: rom[offset::VERSION],
                header_checksum,
                header_checksum_valid,
                global_checksum,
                global_checksum_valid,
            },
        )
    }

    /// Number of 16 KiB banks in the ROM.
    pub fn rom_banks(&self) -> (r: usize)
        ensures
            r == self.rom_size / 0x4000,
    {
        self.rom_size / 0x4000
    }

    /// Number of 8 KiB banks of cartridge RAM, rounding a partial bank up. Zero if
    /// the board has no RAM.
    pub fn ram_banks(&self) -> (r: usize)
        ensures
            r == (self.ram_size + 0x1FFF) / 0x2000,
    {
        self.ram_size / 0x2000 + if self.ram_size % 0x2000 != 0 {
            1
        } else {
            0
        }
    }

    /// The title line; an empty title shows as "<untitled>".
    pub open spec fn title_line(self) -> Seq<char> {
        "Title:     "@ + (if self.title@.len() == 0 {
            "<untitled>"@
        } else {
            self.title@
        }) + "\n"@
    }

    pub open spec fn rom_line(self) -> Seq<char> {
        "ROM:       "@ + decimal((self.rom_size / 1024) as int) + " KiB ("@ + decimal(
            (self.rom_size / 0x4000) as int,
        ) + " banks)\n"@
    }

    /// The RAM line: its size and banks, and whether a battery keeps it, or "none".
    pub open spec fn ram_line(self) -> Seq<char> {
        if self.ram_size == 0 {
            "RAM:       none\n"@
        } else {
            "RAM:       "@ + decimal((self.ram_size / 1024) as int) + " KiB ("@ + decimal(
                ((self.ram_size + 0x1FFF) / 0x2000) as int,
            ) + " banks)"@ + (if self.cartridge_type.has_battery {
                ", battery-backed"@
            } else {
                ""@
            }) + "\n"@
        }
    }

    pub open spec fn region_line(self) -> Seq<char> {
        "Region:    "@ + (if self.japanese {
            "Japan"@
        } else {
            "non-Japan"@
        }) + "\n"@
    }

    pub open spec fn checksum_line(self) -> Seq<char> {
        "Checksums: header "@ + (if self.header_checksum_valid {
            "ok"@
        } else {
            "BAD"@
        }) + ", global "@ + (if self.global_checksum_valid {
            "ok"@
        } else {
            "BAD"@
        }) + "\n"@
    }

    /// The summary a person reads, one field per line.
    pub open spec fn describe_spec(self) -> Seq<char> {
        self.title_line() + ("Licensee:  "@ + self.licensee@ + "\n"@) + ("Version:   "@ + decimal(
            self.version as int,
        ) + "\n"@) + ("Mapper:    "@ + self.cartridge_type.mapper.name_spec() + "\n"@)
            + self.rom_line() + self.ram_line() + self.region_line() + self.checksum_line()
    }

    fn describe_title(&self) -> (r: String)
        ensures
            r@ == self.title_line(),
    {
        let title = if self.title.as_str().unicode_len() == 0 {
            "<untitled>"
        } else {
            self.title.as_str()
        };
        String::from_str("Title:     ").concat(title).concat("\n")
    }

    fn describe_rom(&self) -> (r: String)
        ensures
            r@ == self.rom_line(),
    {
        String::from_str("ROM:       ").concat(decimal_text(self.rom_size / 1024).as_str()).concat(
            " KiB (",
        ).concat(decimal_text(self.rom_banks()).as_str()).concat(" banks)\n")
    }

    fn describe_ram(&self) -> (r: String)
        ensures
            r@ == self.ram_line(),
    {
        if self.ram_size == 0 {
            return String::from_str("RAM:       none\n");
        }
        let battery = if self.cartridge_type.has_battery {
            ", battery-backed"
        } else {
            ""
        };
        String::from_str("RAM:       ").concat(decimal_text(self.ram_size / 1024).as_str()).concat(
            " KiB (",
        ).concat(decimal_text(self.ram_banks()).as_str()).concat(" banks)").concat(battery).concat(
            "\n",
        )
    }

    fn describe_region(&self) -> (r: String)
        ensures
            r@ == self.region_line(),
    {
        let region = if self.japanese {
            "Japan"
        } else {
            "non-Japan"
        };
        String::from_str("Region:    ").concat(region).concat("\n")
    }

    fn describe_checksums(&self) -> (r: String)
        ensures
            r@ == self.checksum_line(),
    {
        let header_ok = if self.header_checksum_valid {
            "ok"
        } else {
            "BAD"
        };
        let global_ok = if self.global_checksum_valid {
            "ok"
        } else {
            "BAD"
        };
        String::from_str("Checksums: header ").concat(header_ok).concat(", global ").concat(
            global_ok,
        ).concat("\n")
    }

    /// The summary a person reads, one field per line.
    pub fn describe(&self) -> (r: String)
        ensures
            r@ == self.describe_spec(),
    {
        let licensee = String::from_str("Licensee:  ").concat(self.licensee.as_str()).concat("\n");
        let version = String::from_str("Version:   ").concat(
            decimal_text(self.version as usize).as_str(),
        ).concat("\n");
        let mapper = String::from_str("Mapper:    ").concat(self.cartridge_type.mapper.name()).concat(
            "\n",
        );
        self.describe_title().concat(licensee.as_str()).concat(version.as_str()).concat(
            mapper.as_str(),
        ).concat(self.describe_rom().as_str()).concat(self.describe_ram().as_str()).concat(
            self.describe_region().as_str(),
        ).concat(self.describe_checksums().as_str())
    }
}

/// Whether a correct Nintendo logo sits at `base + 0x0104`.
///
/// `base` is a physical offset into the image, not an address the CPU can see. It is 0
/// for the cartridge's own header, but MBC1 multicarts carry a full header per bundled
/// game, and finding several logos at 256 KiB intervals is the only way to recognize
/// one — the type byte is indistinguishable from a plain MBC1. See `mbc::mbc1`.
pub fn has_logo_at(rom: &[u8], base: usize) -> (r: bool)
    requires
        base + 0x0134 <= usize::MAX,
    ensures
        r == logo_at(rom@, base as int),
{
    let start = base + offset::LOGO;
    let end = start + 48;
    if rom.len() < end {
        return false;
    }
    let mut i: usize = 0;
    while i < 48
        invariant
            i <= 48,
            start == base + 0x0104,
            base + 0x0134 <= usize::MAX,
            rom@.len() >= base + 0x0134,
            forall|j: int| 0 <= j < i ==> #[trigger] rom@[base + 0x0104 + j] == NINTENDO_LOGO@[j],
        decreases 48 - i,
    {
        if rom[start + i] != NINTENDO_LOGO[i] {
            assert(rom@[base + 0x0104 + i] != NINTENDO_LOGO@[i as int]);
            return false;
        }
        i = i + 1;
    }
    true
}

/// Stamps a Nintendo logo at `base + 0x0104`.
///
/// Companion to [`has_logo_at`], so tests elsewhere can build an image that looks
/// like a multicart without needing a copy of the logo bytes.
pub fn write_logo_at(rom: &mut Vec<u8>, base: usize)
    requires
        base + 0x0134 <= old(rom)@.len(),
    ensures
        final(rom)@.len() == old(rom)@.len(),
        forall|i: int|
            0 <= i < final(rom)@.len() ==> #[trigger] final(rom)@[i] == if base + 0x0104 <= i < base
                + 0x0134 {
                NINTENDO_LOGO@[i - base - 0x0104]
            } else {
                old(rom)@[i]
            },
{
    let len = rom.len();
    let start = base + offset::LOGO;
    let mut i: usize = 0;
    while i < 48
        invariant
            i <= 48,
            start == base + 0x0104,
            len == rom@.len(),
            rom@.len() == old(rom)@.len(),
            base + 0x0134 <= rom@.len(),
            forall|j: int|
                0 <= j < rom@.len() ==> #[trigger] rom@[j] == if start <= j < start + i {
                    NINTENDO_LOGO@[j - start]
                } else {
                    old(rom)@[j]
                },
        decreases 48 - i,
    {
        rom.set(start + i, NINTENDO_LOGO[i]);
        i = i + 1;
    }
}

/// Decodes byte 0x0148 into a byte count.
///
/// The value is a shift count: the ROM is `32 KiB << n`. Values above 0x08 are not
/// assigned; a few unofficial 0x52-0x54 codes exist but no genuine cartridge uses
/// them, so we reject them rather than guess.
pub fn decode_rom_size(byte: u8) -> (r: Option<usize>)
    ensures
        r == rom_size_spec(byte),
{
    if byte <= 8 {
        proof {
            vstd::arithmetic::power2::lemma2_to64();
            vstd::bits::lemma_usize_shl_is_mul(0x8000, byte as usize);
        }
        Some(0x8000usize << (byte as usize))
    } else {
        None
    }
}

/// Decodes byte 0x0149 into a byte count.
///
/// Two wrinkles. Code 0x01 was never used by a real cartridge and is treated as no
/// RAM. And MBC2 carries 512 half-bytes of RAM inside the mapper chip itself, which
/// this field does not describe — those cartridges declare 0x00 here, so we
/// substitute the real size.
pub fn decode_ram_size(byte: u8, mapper: Mapper) -> (r: Option<usize>)
    ensures
        r == ram_size_spec(byte, mapper),
{
    if mapper == Mapper::Mbc2 {
        // 512 x 4 bits. We give each nibble a full byte for simplicity; the mapper
        // is responsible for masking the high nibble off on read.
        return if byte == 0x00 {
            Some(512)
        } else {
            None
        };
    }
    match byte {
        0x00 => Some(0),
        0x01 => Some(0),
        0x02 => Some(8 * 1024),
        0x03 => Some(32 * 1024),
        0x04 => Some(128 * 1024),
        0x05 => Some(64 * 1024),
        _ => None,
    }
}

/// Reads the title field, stopping at the first NUL or non-ASCII byte.
///
/// The field was originally 16 bytes of upper-case ASCII padded with NULs, but later
/// cartridges reused its tail for the manufacturer code and CGB flag, so a raw
/// 16-byte read can pick up binary garbage.
pub fn parse_title(bytes: &[u8]) -> (r: String)
    ensures
        r@ == title_spec(bytes@),
{
    let mut end: usize = 0;
    while end < bytes.len() && 0x20 <= bytes[end] && bytes[end] < 0x7F
        invariant
            end <= bytes@.len(),
            title_run_end(bytes@, 0) == title_run_end(bytes@, end as int),
        decreases bytes@.len() - end,
    {
        end = end + 1;
    }
    // Only spaces are whitespace among printable ASCII, so trimming the end is
    // dropping trailing spaces.
    let mut len = end;
    while len > 0 && bytes[len - 1] == 0x20
        invariant
            len <= end <= bytes@.len(),
            without_trailing_spaces(bytes@, end as int) == without_trailing_spaces(
                bytes@,
                len as int,
            ),
        decreases len,
    {
        len = len - 1;
    }
    proof {
        lemma_title_run(bytes@, 0);
    }
    let mut kept: Vec<u8> = Vec::new();
    let mut i: usize = 0;
    while i < len
        invariant
            i <= len <= end <= bytes@.len(),
            title_run_end(bytes@, 0) == end,
            kept@ == bytes@.take(i as int),
            forall|j: int| 0 <= j < end ==> title_byte(#[trigger] bytes@[j]),
        decreases len - i,
    {
        kept.push(bytes[i]);
        i = i + 1;
    }
    proof {
        assert(kept@ =~= bytes@.take(len as int));
    }
    lossy_text(kept.as_slice())
}

/// Every byte before the end of a run is a title byte.
proof fn lemma_title_run(field: Seq<u8>, i: int)
    requires
        0 <= i,
    ensures
        i <= title_run_end(field, i) <= field.len() || (i > field.len() && title_run_end(field, i) == i),
        forall|j: int| i <= j < title_run_end(field, i) ==> title_byte(#[trigger] field[j]),
    decreases field.len() - i,
{
    if i < field.len() && title_byte(field[i]) {
        lemma_title_run(field, i + 1);
    }
}

/// Reads the publisher code, preferring the newer two-character form.
pub fn parse_licensee(rom: &[u8]) -> (r: String)
    requires
        rom@.len() >= 0x0150,
    ensures
        r@ == licensee_spec(rom@),
{
    let old = rom[offset::OLD_LICENSEE];
    if old == 0x33 {
        let first = rom[offset::NEW_LICENSEE];
        let second = rom[offset::NEW_LICENSEE + 1];
        if 0x21 <= first && first <= 0x7E && 0x21 <= second && second <= 0x7E {
            let code = vec![first, second];
            proof {
                assert(code@ =~= seq![rom@[0x0144], rom@[0x0145]]);
            }
            return lossy_text(code.as_slice());
        }
    }
    hex_byte_text(old)
}

/// Computes the header checksum over 0x0134-0x014C.
///
/// The boot ROM runs exactly this loop and refuses to start the game if the result
/// disagrees with byte 0x014D, so every commercial cartridge has a correct one. Note
/// the subtraction: `x = x - byte - 1` for each byte, with wrapping.
pub fn compute_header_checksum(rom: &[u8]) -> (r: u8)
    requires
        rom@.len() >= 0x014D,
    ensures
        r == header_checksum_spec(rom@, 0x014D),
{
    let mut acc: u8 = 0;
    let mut i: usize = offset::TITLE;
    while i < offset::HEADER_CHECKSUM
        invariant
            0x0134 <= i <= 0x014D,
            rom@.len() >= 0x014D,
            acc == header_checksum_spec(rom@, i as int),
        decreases 0x014D - i,
    {
        acc = acc.wrapping_sub(rom[i]).wrapping_sub(1);
        i = i + 1;
    }
    acc
}

/// Computes the global checksum: a plain 16-bit sum of every byte in the ROM except
/// the two checksum bytes themselves.
pub fn compute_global_checksum(rom: &[u8]) -> (r: u16)
    ensures
        r == global_checksum_spec(rom@, rom@.len() as int),
{
    let mut acc: u16 = 0;
    let mut i: usize = 0;
    while i < rom.len()
        invariant
            i <= rom@.len(),
            acc == global_checksum_spec(rom@, i as int),
        decreases rom@.len() - i,
    {
        if i != offset::GLOBAL_CHECKSUM && i != offset::GLOBAL_CHECKSUM + 1 {
            acc = acc.wrapping_add(rom[i] as u16);
        }
        i = i + 1;
    }
    acc
}

/// Stamping a logo makes it found there: [`write_logo_at`] and [`has_logo_at`]
/// agree.
pub proof fn lemma_written_logo_is_found(before: Seq<u8>, after: Seq<u8>, base: int)
    requires
        0 <= base,
        base + 0x0134 <= before.len(),
        after.len() == before.len(),
        forall|i: int|
            0 <= i < after.len() ==> #[trigger] after[i] == if base + 0x0104 <= i < base + 0x0134 {
                NINTENDO_LOGO@[i - base - 0x0104]
            } else {
                before[i]
            },
    ensures
        logo_at(after, base),
{
    assert forall|i: int| 0 <= i < 48 implies #[trigger] after[base + 0x0104 + i]
        == NINTENDO_LOGO@[i] by {
        assert(after[base + 0x0104 + i] == NINTENDO_LOGO@[(base + 0x0104 + i) - base - 0x0104]);
    }
}

/// The published meaning of byte 0x0147, feature by feature: which values name a
/// board at all, which name a battery ("+BATTERY"), RAM, the real-time clock, a
/// rumble motor or a sensor, and which mapper each names.
pub proof fn lemma_cartridge_types_as_published(byte: u8)
    ensures
        cartridge_type_spec(byte) is Some <==> (byte == 0x00 || byte == 0x01 || byte == 0x02 || byte == 0x03 || byte == 0x05 || byte == 0x06 || byte == 0x08 || byte == 0x09 || byte == 0x0B || byte == 0x0C || byte == 0x0D || byte == 0x0F || byte == 0x10 || byte == 0x11 || byte == 0x12 || byte == 0x13 || byte == 0x19 || byte == 0x1A || byte == 0x1B || byte == 0x1C || byte == 0x1D || byte == 0x1E || byte == 0x20 || byte == 0x22 || byte == 0xFC || byte == 0xFD || byte == 0xFE || byte == 0xFF),
        cartridge_type_spec(byte) matches Some(t) ==> {
            &&& t.has_battery <==> (byte == 0x03 || byte == 0x06 || byte == 0x09 || byte == 0x0D || byte == 0x0F || byte == 0x10 || byte == 0x13 || byte == 0x1B || byte == 0x1E || byte == 0x20 || byte == 0x22 || byte == 0xFC || byte == 0xFD || byte == 0xFF)
            &&& t.has_ram <==> (byte == 0x02 || byte == 0x03 || byte == 0x05 || byte == 0x06 || byte == 0x08 || byte == 0x09 || byte == 0x0C || byte == 0x0D || byte == 0x10 || byte == 0x12 || byte == 0x13 || byte == 0x1A || byte == 0x1B || byte == 0x1D || byte == 0x1E || byte == 0x20 || byte == 0x22 || byte == 0xFC || byte == 0xFD || byte == 0xFF)
            &&& t.has_timer <==> (byte == 0x0F || byte == 0x10)
            &&& t.has_rumble <==> (byte == 0x1C || byte == 0x1D || byte == 0x1E || byte == 0x22)
            &&& t.has_sensor <==> byte == 0x22
            &&& (t.mapper == Mapper::NoMbc) <==> (byte == 0x00 || byte == 0x08 || byte == 0x09)
            &&& (t.mapper == Mapper::Mbc1) <==> (0x01 <= byte <= 0x03)
            &&& (t.mapper == Mapper::Mbc2) <==> (byte == 0x05 || byte == 0x06)
            &&& (t.mapper == Mapper::Mbc3) <==> (0x0F <= byte <= 0x13)
            &&& (t.mapper == Mapper::Mbc5) <==> (0x19 <= byte <= 0x1E)
        },
{
}

} // verus!
