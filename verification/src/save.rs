//! Battery-backed saves: keeping cartridge RAM between runs.
//!
//! A cartridge with a battery on its board keeps its save RAM powered when the console
//! is off — that is all "battery-backed" means, and it is the only reason a Game Boy
//! game can remember anything. A cartridge *without* one has the same RAM and loses it
//! the moment the power goes, so persisting it here would be wrong, not generous: see
//! [`SaveFile::for_cartridge`].
//!
//! # Where the files go
//!
//! `dirs::data_dir()`, plus `game-koi/`. That resolves to the place each platform
//! actually wants application data:
//!
//! | Platform | Directory |
//! |---|---|
//! | Linux | `$XDG_DATA_HOME`, else `~/.local/share` |
//! | macOS | `~/Library/Application Support` |
//! | Windows | `%APPDATA%` (Roaming) |
//!
//! Data rather than config: a save is generated state, not something a person edits.
//!
//! Files are named after the ROM's filename, not its header title — plenty of
//! cartridges share a title field, and the filename is what the person actually chose.
//!
//! Reading and writing the file is the caller's job; this module decides whether a
//! cartridge gets a save at all, where it lives, and when one is worth writing or
//! loading.
//!
//! # What is not saved
//!
//! MBC3's real-time clock. On a real cartridge the same battery powers both the RAM and
//! the crystal; here the clock restarts at zero every run. The loader tolerates a
//! longer file than it expects, which is what a save written by an emulator that
//! appends its clock looks like.
use vstd::prelude::*;
use crate::bus::Bus;
use crate::cartridge::Cartridge;
use crate::cartridge::mbc::{MbcModel, RamModel};
use crate::testbus::{TestBus, TestBusModel};

verus! {

/// The stem of a path's file name (its name without the last extension), as
/// `std::path::Path::file_stem` gives it.
pub uninterp spec fn path_file_stem(path: Seq<char>) -> Option<Seq<char>>;

/// `base` with `name` appended as a further component, as `PathBuf::push` gives it.
pub uninterp spec fn path_join(base: Seq<char>, name: Seq<char>) -> Seq<char>;

/// `path` with its extension replaced by `extension`, as `PathBuf::set_extension`
/// gives it.
pub uninterp spec fn path_with_extension(path: Seq<char>, extension: Seq<char>) -> Seq<char>;

/// `std::path::Path::file_stem`, as text.
///
/// The contract only names the result: how a path splits into components depends on
/// the platform's separators, which nothing here restates.
#[verifier::external_body]
fn file_stem(path: &str) -> (r: Option<String>)
    ensures
        match r {
            Some(stem) => path_file_stem(path@) == Some(stem@),
            None => path_file_stem(path@) is None,
        },
{
    std::path::Path::new(path).file_stem().map(|stem| stem.to_string_lossy().into_owned())
}

/// `std::path::PathBuf::push`, as text.
#[verifier::external_body]
fn join(base: &str, name: &str) -> (r: String)
    ensures
        r@ == path_join(base@, name@),
{
    let mut path = std::path::PathBuf::from(base);
    path.push(name);
    path.to_string_lossy().into_owned()
}

/// `std::path::PathBuf::set_extension`, as text.
///
/// `set_extension` panics on an extension that holds a path separator, so the
/// extension must hold neither `/` nor `\\`.
#[verifier::external_body]
fn with_extension(path: &str, extension: &str) -> (r: String)
    requires
        forall|i: int| 0 <= i < extension@.len() ==> extension@[i] != '/' && extension@[i] != '\\',
    ensures
        r@ == path_with_extension(path@, extension@),
{
    let mut path = std::path::PathBuf::from(path);
    path.set_extension(extension);
    path.to_string_lossy().into_owned()
}

/// `dirs::data_dir`, as text.
///
/// Nothing is stated of the result: it comes from the environment and the platform,
/// and may be absent. The library holds paths as text, so a directory whose name is
/// not valid Unicode comes back with its invalid bytes replaced.
#[verifier::external_body]
fn data_dir() -> (r: Option<String>) {
    dirs::data_dir().map(|dir| dir.to_string_lossy().into_owned())
}

/// Whether a board keeps its RAM with the power off: it has a battery, and its
/// mapper drives some RAM. MBC2 is why the mapper is asked rather than the header:
/// its RAM is inside the mapper chip, so the header's RAM-size byte is 0 even though
/// there is RAM to save.
pub open spec fn keeps_ram(cart: Cartridge) -> bool {
    &&& cart.header_spec().cartridge_type.has_battery
    &&& match MbcModel::for_header(
        cart.header_spec().cartridge_type.mapper,
        cart.image(),
        (cart.header_spec().rom_size / 0x4000) as nat,
        cart.header_spec().ram_size as nat,
        cart.header_spec().cartridge_type.has_timer,
    ) {
        Some(m) => m.ram().bytes.len() > 0,
        None => false,
    }
}

/// Where the save for the ROM at `rom_path` lives under the data directory `dir`.
pub open spec fn save_path_spec(dir: Seq<char>, rom_path: Seq<char>) -> Option<Seq<char>> {
    match path_file_stem(rom_path) {
        Some(stem) => Some(
            path_with_extension(path_join(path_join(dir, "game-koi"@), stem), "sav"@),
        ),
        None => None,
    }
}

/// Where a cartridge's save RAM lives on disk.
pub struct SaveFile {
    path: String,
}

impl SaveFile {
    pub closed spec fn path_spec(&self) -> Seq<char> {
        self.path@
    }

    /// The save file for the ROM at `rom_path`, in the data directory `dir`, or
    /// `None` if the path names no file.
    pub fn at(dir: &str, rom_path: &str) -> (r: Option<Self>)
        ensures
            match save_path_spec(dir@, rom_path@) {
                Some(p) => r matches Some(s) && s.path_spec() == p,
                None => r is None,
            },
    {
        let stem = match file_stem(rom_path) {
            Some(stem) => stem,
            None => return None,
        };
        let folder = join(dir, "game-koi");
        let file = join(folder.as_str(), stem.as_str());
        proof {
            reveal_strlit("sav");
        }
        Some(SaveFile { path: with_extension(file.as_str(), "sav") })
    }

    /// The save file for a cartridge, or `None` if it should not have one.
    ///
    /// Three ways to get `None`, and they are all correct rather than failures:
    /// the board has no battery, so its RAM is volatile on real hardware too; the board
    /// has no RAM at all; or the platform has no data directory to write to, which is
    /// odd but not a reason to refuse to play.
    pub fn for_cartridge(cart: &Cartridge) -> (r: Option<Self>)
        ensures
            !keeps_ram(*cart) ==> r is None,
            path_file_stem(cart.path_spec()) is None ==> r is None,
            r is Some ==> keeps_ram(*cart),
            r matches Some(s) ==> exists|dir: Seq<char>|
                save_path_spec(dir, cart.path_spec()) == Some(#[trigger] s.path_spec()),
    {
        let dir = if Self::keeps_ram(cart) {
            data_dir()
        } else {
            None
        };
        match dir {
            Some(dir) => Self::for_cartridge_in(cart, Some(dir.as_str())),
            None => None,
        }
    }

    /// Whether the cartridge's board keeps its RAM with the power off.
    fn keeps_ram(cart: &Cartridge) -> (r: bool)
        ensures
            r == keeps_ram(*cart),
    {
        let header = cart.header();
        if !header.cartridge_type.has_battery {
            return false;
        }
        match cart.create_mbc() {
            Ok(mbc) => match mbc.ram() {
                Some(ram) => ram.is_present(),
                None => false,
            },
            Err(_) => false,
        }
    }

    /// The save file for a cartridge, given the platform's data directory (`None` where
    /// it has none): `None` unless the board keeps its RAM, there is a directory, and
    /// the ROM's path names a file.
    pub fn for_cartridge_in(cart: &Cartridge, dir: Option<&str>) -> (r: Option<Self>)
        ensures
            match dir {
                Some(d) => if keeps_ram(*cart) {
                    match save_path_spec(d@, cart.path_spec()) {
                        Some(p) => r matches Some(s) && s.path_spec() == p,
                        None => r is None,
                    }
                } else {
                    r is None
                },
                None => r is None,
            },
    {
        if !Self::keeps_ram(cart) {
            return None;
        }
        match dir {
            Some(d) => Self::at(d, cart.path()),
            None => None,
        }
    }

    pub fn path(&self) -> (r: &str)
        ensures
            r@ == self.path_spec(),
    {
        self.path.as_str()
    }

    /// The bytes a save holds: the cartridge's whole RAM, or `None` if its mapper
    /// drives no RAM and there is nothing to store.
    pub fn contents(bus: &TestBus) -> (r: Option<&[u8]>)
        ensures
            r is Some <==> bus@.mbc.ram().bytes.len() > 0,
            r matches Some(bytes) ==> bytes@ == bus@.mbc.ram().bytes,
    {
        match bus.cartridge_ram() {
            Some(ram) => if ram.is_present() {
                Some(ram.bytes())
            } else {
                None
            },
            None => None,
        }
    }

    /// The bytes to write out if the game has touched its save RAM since the last
    /// store, or `None` when there is nothing new to save.
    ///
    /// The autosave asks this every couple of seconds. Most of the time the answer is
    /// `None`, because a game only writes save RAM when it saves. Once the bytes are
    /// safely written, [`TestBus::mark_cartridge_ram_clean`] records that.
    pub fn store_if_dirty<'a>(&self, bus: &'a TestBus) -> (r: Option<&'a [u8]>)
        ensures
            r is Some <==> bus@.mbc.ram().dirty && bus@.mbc.ram().bytes.len() > 0,
            r matches Some(bytes) ==> bytes@ == bus@.mbc.ram().bytes,
    {
        let dirty = match bus.cartridge_ram() {
            Some(ram) => ram.is_dirty(),
            None => false,
        };
        if dirty {
            Self::contents(bus)
        } else {
            None
        }
    }

    /// Whether a save file of `len` bytes can be loaded into this cartridge.
    ///
    /// A file that is too short is refused: it is more likely a save for a different
    /// game than a truncated one for this game, and half-loading it would corrupt what
    /// the player has. A longer one is accepted, and only its start is read.
    pub fn fits(bus: &TestBus, len: usize) -> (r: bool)
        ensures
            r == (len >= bus@.mbc.ram().bytes.len()),
    {
        match bus.cartridge_ram() {
            Some(ram) => len >= ram.bytes().len(),
            None => false,
        }
    }

    /// Loads a save file's bytes into the cartridge, if they fit; reports whether they
    /// did.
    pub fn restore(bus: &mut TestBus, data: &[u8]) -> (r: bool)
        requires
            old(bus).ready(),
        ensures
            final(bus).ready(),
            r == (data@.len() >= old(bus)@.mbc.ram().bytes.len()),
            r ==> final(bus)@.mbc == old(bus)@.mbc.with_ram(
                RamModel {
                    bytes: data@.take(old(bus)@.mbc.ram().bytes.len() as int),
                    dirty: false,
                    ..old(bus)@.mbc.ram()
                },
            ),
            !r ==> *final(bus) == *old(bus),
    {
        if !Self::fits(bus, data.len()) {
            return false;
        }
        bus.load_cartridge_ram(data);
        true
    }
}

/// A save survives a round trip: the bytes [`SaveFile::contents`] gives for one
/// machine, handed to [`SaveFile::restore`] on another with the same cartridge RAM,
/// fit, and leave that machine's RAM holding exactly those bytes, with nothing left
/// to store.
pub proof fn lemma_a_save_round_trips(stored: TestBusModel, target: TestBusModel)
    requires
        stored.mbc.ram().bytes.len() == target.mbc.ram().bytes.len(),
    ensures
        ({
            let bytes = stored.mbc.ram().bytes;
            let restored = target.mbc.with_ram(
                RamModel {
                    bytes: bytes.take(target.mbc.ram().bytes.len() as int),
                    dirty: false,
                    ..target.mbc.ram()
                },
            );
            &&& bytes.len() >= target.mbc.ram().bytes.len()
            &&& restored.ram().bytes == bytes
            &&& !restored.ram().dirty
        }),
{
    let bytes = stored.mbc.ram().bytes;
    assert(bytes.take(bytes.len() as int) =~= bytes);
}

} // verus!
