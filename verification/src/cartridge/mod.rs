//! Cartridges: a ROM image, its parsed header, and the mapper chip that banks it.
//!
//! A [`Cartridge`] is built from bytes already in memory; reading the file is the
//! caller's business.
pub mod offset;
pub mod header;
pub mod mbc;

use vstd::prelude::*;
use self::header::{header_error, Header, HeaderError};
use self::mbc::{for_cartridge, Mbc, MbcModel, UnsupportedMapper};

verus! {

/// A loaded cartridge: the ROM image exactly as it was in the file, its header, and
/// where it came from (for error messages and save-file naming).
pub struct Cartridge {
    rom: Vec<u8>,
    header: Header,
    path: String,
}

/// Anything that can go wrong loading a ROM file.
#[derive(Debug, Clone)]
pub enum LoadError {
    /// The file could not be read; `message` is what the system said.
    Io { path: String, message: String },
    /// The file was read but is not a cartridge we understand.
    Header { path: String, source: HeaderError },
}

impl LoadError {
    /// The explanation a person reads, naming the file.
    pub open spec fn message_spec(&self) -> Seq<char> {
        match self {
            LoadError::Io { path, message } => "could not read "@ + path@ + ": "@ + message@,
            LoadError::Header { path, source } => "invalid cartridge header in "@ + path@ + ": "@
                + source.message_spec(),
        }
    }

    pub fn message(&self) -> (r: String)
        ensures
            r@ == self.message_spec(),
    {
        match self {
            LoadError::Io { path, message } => String::from_str("could not read ").concat(
                path.as_str(),
            ).concat(": ").concat(message.as_str()),
            LoadError::Header { path, source } => {
                let reason = source.message();
                String::from_str("invalid cartridge header in ").concat(path.as_str()).concat(
                    ": ",
                ).concat(reason.as_str())
            },
        }
    }
}

impl Cartridge {
    /// The ROM image.
    pub closed spec fn image(&self) -> Seq<u8> {
        self.rom@
    }

    /// The parsed header.
    pub closed spec fn header_spec(&self) -> Header {
        self.header
    }

    /// Where the image came from.
    pub closed spec fn path_spec(&self) -> Seq<char> {
        self.path@
    }

    /// The header describes the image, and the image passed every check.
    #[verifier::type_invariant]
    closed spec fn parsed(self) -> bool {
        header_error(self.rom@) is None && self.header.describes(self.rom@)
    }

    /// Builds a cartridge from an in-memory ROM image.
    pub fn from_bytes(rom: Vec<u8>, path: &str) -> (r: Result<Self, LoadError>)
        ensures
            r is Ok <==> header_error(rom@) is None,
            r matches Ok(c) ==> {
                &&& c.image() == rom@
                &&& c.header_spec().describes(rom@)
                &&& c.path_spec() == path@
            },
            r matches Err(e) ==> e matches LoadError::Header { path: p, source } && p@ == path@
                && header_error(rom@) == Some(source),
    {
        match Header::parse(rom.as_slice()) {
            Ok(header) => Ok(Cartridge { rom, header, path: String::from_str(path) }),
            Err(source) => Err(LoadError::Header { path: String::from_str(path), source }),
        }
    }

    pub fn header(&self) -> (r: &Header)
        ensures
            *r == self.header_spec(),
            r.describes(self.image()),
            header_error(self.image()) is None,
    {
        proof {
            use_type_invariant(self);
        }
        &self.header
    }

    pub fn path(&self) -> (r: &str)
        ensures
            r@ == self.path_spec(),
    {
        self.path.as_str()
    }

    /// The raw ROM image.
    pub fn rom(&self) -> (r: &[u8])
        ensures
            r@ == self.image(),
    {
        self.rom.as_slice()
    }

    /// A fresh mapper for this cartridge, holding its own copy of the ROM.
    pub fn create_mbc(&self) -> (r: Result<Mbc, UnsupportedMapper>)
        ensures
            match MbcModel::for_header(
                self.header_spec().cartridge_type.mapper,
                self.image(),
                (self.header_spec().rom_size / 0x4000) as nat,
                self.header_spec().ram_size as nat,
                self.header_spec().cartridge_type.has_timer,
            ) {
                Some(m) => r matches Ok(mbc) && mbc@ == m && mbc@.well_formed(),
                None => r == Err::<Mbc, UnsupportedMapper>(
                    UnsupportedMapper(self.header_spec().cartridge_type.mapper),
                ),
            },
    {
        proof {
            use_type_invariant(self);
            vstd::arithmetic::power2::lemma2_to64();
        }
        let rom = self.rom.clone();
        proof {
            assert(rom@ =~= self.rom@);
        }
        for_cartridge(&self.header, rom)
    }
}

} // verus!
