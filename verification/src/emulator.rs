//! A whole Game Boy behind one handle, as a frontend drives it.
//!
//! A frontend builds the machine from ROM bytes, asks it to run one frame at a time,
//! reads the picture back as RGBA bytes, and presses and releases buttons. Pacing,
//! presentation and sound output are the frontend's business: this side runs the
//! machine and hands back plain bytes.
//!
//! Buttons can be named the way a web page names them ("a", "start", "up", ...), so a
//! browser frontend can pass its strings straight through.
use vstd::prelude::*;
use vstd::string::StrSliceExecFns;
use crate::cartridge::header::{cartridge_type_spec, header_error, ram_size_spec, rom_size_spec};
use crate::cartridge::mbc::{MbcModel, UnsupportedMapper};
use crate::cartridge::{Cartridge, LoadError};
use crate::cpu::{inc16, is_illegal, Cpu, IllegalOpcode, State};
use crate::cpu::laws::lemma_an_illegal_step;
use crate::display::{shade_colour, PALETTE};
use crate::joypad::Button;
use crate::ppu::{SCREEN_HEIGHT, SCREEN_WIDTH};
use crate::runner::{frame_awaited, frame_taken, lemma_run_extends, lemma_step_advances_cycles, ran_until_frame, stops_at, a_run};
use crate::testbus::{TestBus, TestBusModel};

verus! {

/// How many M-cycles a frame may run before [`Emulator::run_frame`] gives up waiting
/// for the PPU. A frame is 17556 M-cycles, so this only bites on a ROM that never
/// finishes one, and keeps such a ROM from wedging the frontend.
pub const FRAME_CYCLE_BUDGET: u64 = 100_000;

/// Bytes in the RGBA picture: four per pixel.
pub const RGBA_LEN: usize = 92160;

/// Why a machine could not be built from a ROM image.
pub enum StartError {
    /// The header would not parse.
    Load(LoadError),
    /// The header parsed, but names a cartridge board that is not emulated.
    Unsupported(UnsupportedMapper),
}

/// The mapper a ROM image starts with, if its board is emulated. Meaningful for an
/// image whose header parses.
pub open spec fn start_mbc(rom: Seq<u8>) -> Option<MbcModel> {
    let cartridge_type = cartridge_type_spec(rom[0x0147]).unwrap();
    let rom_size = rom_size_spec(rom[0x0148]).unwrap();
    let ram_size = ram_size_spec(rom[0x0149], cartridge_type.mapper).unwrap();
    MbcModel::for_header(
        cartridge_type.mapper,
        rom,
        (rom_size / 0x4000) as nat,
        ram_size as nat,
        cartridge_type.has_timer,
    )
}

/// The RGBA picture of a framebuffer: each pixel's shade (its low two bits) looked up
/// in [`PALETTE`], four bytes per pixel.
pub open spec fn rgba_of(framebuffer: Seq<u8>) -> Seq<u8> {
    Seq::new(
        framebuffer.len() * 4,
        |i: int| PALETTE@[(framebuffer[i / 4] % 4) as int]@[i % 4],
    )
}

/// The button a page's name stands for.
pub open spec fn button_named(name: Seq<char>) -> Option<Button> {
    if name == seq!['r', 'i', 'g', 'h', 't'] {
        Some(Button::Right)
    } else if name == seq!['l', 'e', 'f', 't'] {
        Some(Button::Left)
    } else if name == seq!['u', 'p'] {
        Some(Button::Up)
    } else if name == seq!['d', 'o', 'w', 'n'] {
        Some(Button::Down)
    } else if name == seq!['a'] {
        Some(Button::A)
    } else if name == seq!['b'] {
        Some(Button::B)
    } else if name == seq!['s', 'e', 'l', 'e', 'c', 't'] {
        Some(Button::Select)
    } else if name == seq!['s', 't', 'a', 'r', 't'] {
        Some(Button::Start)
    } else {
        None
    }
}

/// Whether `text` spells exactly `expected`.
fn spells(text: &str, expected: &[char]) -> (r: bool)
    ensures
        r == (text@ == expected@),
{
    let n = text.unicode_len();
    if n != expected.len() {
        return false;
    }
    let mut i: usize = 0;
    while i < n
        invariant
            i <= n,
            n == text@.len(),
            n == expected@.len(),
            forall|j: int| 0 <= j < i ==> text@[j] == expected@[j],
        decreases n - i,
    {
        if text.get_char(i) != expected[i] {
            return false;
        }
        i = i + 1;
    }
    assert(text@ =~= expected@);
    true
}

/// Reads a button named as a page names it: "right", "left", "up", "down", "a", "b",
/// "select" or "start". Any other name is no button.
pub fn parse_button(name: &str) -> (r: Option<Button>)
    ensures
        r == button_named(name@),
{
    let right: [char; 5] = ['r', 'i', 'g', 'h', 't'];
    let left: [char; 4] = ['l', 'e', 'f', 't'];
    let up: [char; 2] = ['u', 'p'];
    let down: [char; 4] = ['d', 'o', 'w', 'n'];
    let a: [char; 1] = ['a'];
    let b: [char; 1] = ['b'];
    let select: [char; 6] = ['s', 'e', 'l', 'e', 'c', 't'];
    let start: [char; 5] = ['s', 't', 'a', 'r', 't'];
    proof {
        assert(right@ =~= seq!['r', 'i', 'g', 'h', 't']);
        assert(left@ =~= seq!['l', 'e', 'f', 't']);
        assert(up@ =~= seq!['u', 'p']);
        assert(down@ =~= seq!['d', 'o', 'w', 'n']);
        assert(a@ =~= seq!['a']);
        assert(b@ =~= seq!['b']);
        assert(select@ =~= seq!['s', 'e', 'l', 'e', 'c', 't']);
        assert(start@ =~= seq!['s', 't', 'a', 'r', 't']);
    }
    if spells(name, right.as_slice()) {
        Some(Button::Right)
    } else if spells(name, left.as_slice()) {
        Some(Button::Left)
    } else if spells(name, up.as_slice()) {
        Some(Button::Up)
    } else if spells(name, down.as_slice()) {
        Some(Button::Down)
    } else if spells(name, a.as_slice()) {
        Some(Button::A)
    } else if spells(name, b.as_slice()) {
        Some(Button::B)
    } else if spells(name, select.as_slice()) {
        Some(Button::Select)
    } else if spells(name, start.as_slice()) {
        Some(Button::Start)
    } else {
        None
    }
}

/// A running Game Boy.
pub struct Emulator {
    pub cpu: Cpu,
    pub bus: TestBus,
    /// The last completed frame as RGBA, kept here so a frontend can read it in place.
    pub rgba: Vec<u8>,
}

impl Emulator {
    pub open spec fn well_formed(self) -> bool {
        &&& self.bus@.well_formed()
        &&& self.rgba@.len() == RGBA_LEN
    }

    /// Builds a powered-on machine from a ROM image.
    ///
    /// Fails if the header will not parse, or if the cartridge uses a board that is not
    /// emulated.
    pub fn new(rom: Vec<u8>) -> (r: Result<Emulator, StartError>)
        ensures
            match header_error(rom@) {
                Some(e) => r matches Err(StartError::Load(LoadError::Header { source, .. }))
                    && source == e,
                None => match start_mbc(rom@) {
                    Some(m) => r matches Ok(emu) && emu.well_formed() && emu.cpu == Cpu::initial()
                        && emu.bus@ == TestBusModel::powered_on(m) && forall|i: int|
                        0 <= i < RGBA_LEN ==> emu.rgba@[i] == 0,
                    None => r matches Err(StartError::Unsupported(u))
                        && u == UnsupportedMapper(cartridge_type_spec(rom@[0x0147]).unwrap().mapper),
                },
            },
    {
        let ghost image = rom@;
        // The path only names the cartridge in messages and save files, neither of
        // which a ROM handed over as bytes has.
        let cart = match Cartridge::from_bytes(rom, "rom.gb") {
            Ok(cart) => cart,
            Err(e) => return Err(StartError::Load(e)),
        };
        let bus = match TestBus::new(&cart) {
            Ok(bus) => bus,
            Err(e) => return Err(StartError::Unsupported(e)),
        };
        proof {
            assert(cart.image() == image);
        }
        Ok(Emulator { cpu: Cpu::new(), bus, rgba: vec![0u8; RGBA_LEN] })
    }

    /// Runs until the PPU completes a frame, then expands it into the RGBA picture.
    ///
    /// Gives up after [`FRAME_CYCLE_BUDGET`] M-cycles without a frame, and stops at an
    /// opcode that is not an instruction, reporting it. The cycle counter must have
    /// room for the budget and the last step.
    pub fn run_frame(&mut self) -> (r: Result<(), IllegalOpcode>)
        requires
            old(self).well_formed(),
            old(self).bus.cycles <= u64::MAX - FRAME_CYCLE_BUDGET - 5,
        ensures
            final(self).well_formed(),
            old(self).bus.cycles <= final(self).bus.cycles,
            final(self).bus.cycles <= old(self).bus.cycles + FRAME_CYCLE_BUDGET + 5,
            r is Ok ==> !final(self).bus@.ppu.frame_ready && final(self).rgba@ == rgba_of(
                final(self).bus@.ppu.framebuffer,
            ),
            r matches Err(e) ==> is_illegal(e.opcode) && final(self).cpu.state == State::Running && (
            final(self).cpu.regs.pc == inc16(e.address) || final(self).cpu.regs.pc == e.address),
            exists|bus: TestBus|
                #![trigger ran_until_frame(old(self).cpu, old(self).bus, (old(self).bus.cycles + FRAME_CYCLE_BUDGET) as u64, r, final(self).cpu, bus)]
                {
                    &&& ran_until_frame(
                        old(self).cpu,
                        old(self).bus,
                        (old(self).bus.cycles + FRAME_CYCLE_BUDGET) as u64,
                        r,
                        final(self).cpu,
                        bus,
                    )
                    &&& r is Ok ==> final(self).bus == frame_taken(bus)
                    &&& r is Err ==> final(self).bus == bus
                },
    {
        let budget = self.bus.cycles + FRAME_CYCLE_BUDGET;
        let ghost cpu0 = self.cpu;
        let ghost bus0 = self.bus;
        match run_until_frame(&mut self.cpu, &mut self.bus, budget) {
            Ok(()) => {},
            Err(illegal) => {
                proof {
                    let ghost r: Result<(), IllegalOpcode> = Err(illegal);
                    assert(ran_until_frame(cpu0, bus0, budget, r, self.cpu, self.bus));
                }
                return Err(illegal);
            },
        }
        let ghost r0: Result<(), IllegalOpcode> = Ok(());
        assert(ran_until_frame(cpu0, bus0, budget, r0, self.cpu, self.bus));
        let ghost ran = self.bus;
        self.bus.ppu.frame_ready = false;
        self.expand_frame();
        proof {
            assert(self.bus == frame_taken(ran));
            assert(ran_until_frame(cpu0, bus0, budget, r0, self.cpu, ran));
        }
        Ok(())
    }

    /// Fills the RGBA picture from the PPU's framebuffer.
    fn expand_frame(&mut self)
        requires
            old(self).well_formed(),
        ensures
            final(self).well_formed(),
            final(self).rgba@ == rgba_of(old(self).bus@.ppu.framebuffer),
            final(self).bus == old(self).bus,
            final(self).cpu == old(self).cpu,
    {
        let ghost framebuffer = self.bus@.ppu.framebuffer;
        assert(framebuffer.len() == 23040);
        let mut i: usize = 0;
        while i < 23040
            invariant
                i <= 23040,
                framebuffer.len() == 23040,
                self.bus == old(self).bus,
                self.cpu == old(self).cpu,
                self.bus@.ppu.framebuffer == framebuffer,
                self.bus@.well_formed(),
                self.rgba@.len() == RGBA_LEN,
                forall|j: int| 0 <= j < 4 * i ==> self.rgba@[j] == rgba_of(framebuffer)[j],
            decreases 23040 - i,
        {
            let colour = shade_colour(self.bus.ppu.framebuffer[i]);
            let mut k: usize = 0;
            while k < 4
                invariant
                    i < 23040,
                    k <= 4,
                    framebuffer.len() == 23040,
                    self.bus == old(self).bus,
                    self.cpu == old(self).cpu,
                    self.bus@.ppu.framebuffer == framebuffer,
                    self.bus@.well_formed(),
                    self.rgba@.len() == RGBA_LEN,
                    colour == PALETTE@[(framebuffer[i as int] % 4) as int],
                    forall|j: int| 0 <= j < 4 * i + k ==> self.rgba@[j] == rgba_of(framebuffer)[j],
                decreases 4 - k,
            {
                self.rgba.set(4 * i + k, colour[k]);
                proof {
                    let n: int = 4 * i + k;
                    assert(n / 4 == i && n % 4 == k);
                }
                k = k + 1;
            }
            i = i + 1;
        }
        proof {
            assert(self.rgba@ =~= rgba_of(framebuffer));
        }
    }

    /// The RGBA picture of the last completed frame.
    pub fn frame(&self) -> (r: &[u8])
        ensures
            r@ == self.rgba@,
    {
        self.rgba.as_slice()
    }

    pub fn frame_len(&self) -> (r: usize)
        ensures
            r == self.rgba@.len(),
    {
        self.rgba.len()
    }

    pub fn width() -> (r: usize)
        ensures
            r == 160,
    {
        SCREEN_WIDTH
    }

    pub fn height() -> (r: usize)
        ensures
            r == 144,
    {
        SCREEN_HEIGHT
    }

    /// Presses a button named as the page sees it. Unknown names change nothing.
    pub fn press(&mut self, button: &str)
        ensures
            final(self).cpu == old(self).cpu,
            final(self).rgba == old(self).rgba,
            match button_named(button@) {
                Some(b) => {
                    let (joypad, interrupts) = old(self).bus@.joypad.press_spec(
                        b,
                        old(self).bus@.interrupts,
                    );
                    final(self).bus@ == (TestBusModel { joypad, interrupts, ..old(self).bus@ })
                },
                None => final(self).bus@ == old(self).bus@,
            },
    {
        if let Some(b) = parse_button(button) {
            self.bus.joypad.press(b, &mut self.bus.interrupts);
        }
    }

    /// Releases a button named as the page sees it. Unknown names change nothing.
    pub fn release(&mut self, button: &str)
        ensures
            final(self).cpu == old(self).cpu,
            final(self).rgba == old(self).rgba,
            match button_named(button@) {
                Some(b) => final(self).bus@ == (TestBusModel {
                    joypad: old(self).bus@.joypad.release_spec(b),
                    ..old(self).bus@
                }),
                None => final(self).bus@ == old(self).bus@,
            },
    {
        if let Some(b) = parse_button(button) {
            self.bus.joypad.release(b);
        }
    }
}

/// Steps until the PPU has a frame ready or the bus reaches `budget` M-cycles, or
/// until the CPU meets an opcode that is not an instruction, which it reports.
fn run_until_frame(cpu: &mut Cpu, bus: &mut TestBus, budget: u64) -> (r: Result<(), IllegalOpcode>)
    requires
        old(bus)@.well_formed(),
        old(bus).cycles <= budget <= u64::MAX - 5,
    ensures
        final(bus)@.well_formed(),
        ran_until_frame(*old(cpu), *old(bus), budget, r, *final(cpu), *final(bus)),
        old(bus).cycles <= final(bus).cycles <= budget + 5,
        r is Ok ==> final(bus)@.ppu.frame_ready || final(bus).cycles >= budget,
        r matches Err(e) ==> is_illegal(e.opcode) && final(cpu).state == State::Running && (
        final(cpu).regs.pc == inc16(e.address) || final(cpu).regs.pc == e.address),
{
    let ghost start = bus.cycles;
    let ghost mut cpus: Seq<Cpu> = seq![*cpu];
    let ghost mut buses: Seq<TestBus> = seq![*bus];
    while !bus.ppu.frame_ready && bus.cycles < budget
        invariant
            bus@.well_formed(),
            budget <= u64::MAX - 5,
            start == old(bus).cycles,
            start <= bus.cycles <= budget + 5,
            a_run(cpus, buses),
            cpus[0] == *old(cpu),
            buses[0] == *old(bus),
            cpus.last() == *cpu,
            buses.last() == *bus,
            forall|i: int| 0 <= i < cpus.len() - 1 ==> #[trigger] frame_awaited(buses, budget, i),
        decreases budget + 5 - bus.cycles,
    {
        let ghost before = *bus;
        let ghost c = *cpu;
        proof {
            assert(frame_awaited(buses, budget, cpus.len() - 1));
        }
        let stepped = cpu.step(bus);
        proof {
            lemma_step_advances_cycles(before, *bus, c);
        }
        if let Err(illegal) = stepped {
            proof {
                lemma_an_illegal_step(before, c);
                assert(stops_at(cpus.last(), buses.last(), *cpu, *bus, illegal));
                assert(a_run(cpus, buses));
            }
            return Err(illegal);
        }
        proof {
            lemma_run_extends(cpus, buses, *cpu, *bus);
            let n = cpus.len() - 1;
            assert(frame_awaited(buses, budget, n));
            let b2 = buses.push(*bus);
            assert forall|i: int| 0 <= i < cpus.len() implies #[trigger] frame_awaited(b2, budget, i) by {
                if i < n {
                    assert(frame_awaited(buses, budget, i));
                }
            }
            cpus = cpus.push(*cpu);
            buses = b2;
        }
    }
    proof {
        assert(a_run(cpus, buses));
    }
    Ok(())
}

} // verus!
