//! Offsets into the ROM. These are absolute addresses in bank 0, which is mapped at
//! 0x0000, so they double as indices into the ROM file itself.
use vstd::prelude::*;

verus! {

pub const LOGO: usize = 0x0104;

pub const TITLE: usize = 0x0134;

pub const NEW_LICENSEE: usize = 0x0144;

pub const SGB_FLAG: usize = 0x0146;

pub const CARTRIDGE_TYPE: usize = 0x0147;

pub const ROM_SIZE: usize = 0x0148;

pub const RAM_SIZE: usize = 0x0149;

pub const DESTINATION: usize = 0x014A;

pub const OLD_LICENSEE: usize = 0x014B;

pub const VERSION: usize = 0x014C;

pub const HEADER_CHECKSUM: usize = 0x014D;

pub const GLOBAL_CHECKSUM: usize = 0x014E;

/// One past the last header byte. A ROM shorter than this has no header.
pub const HEADER_END: usize = 0x0150;

} // verus!
