//! The PPU (Picture Processing Unit).
//!
//! # The scanline state machine
//!
//! The PPU draws 144 visible scanlines, then spends 10 more lines' worth of time in
//! vertical blank — 154 lines total, each taking 456 T-cycles. That is 70224 T-cycles
//! per frame, or about 59.7 frames per second.
//!
//! Each visible line cycles through three modes, then VBlank takes over for the rest
//! of the frame:
//!
//! | Mode | Name        | Duration      | What it means                         |
//! |------|-------------|---------------|---------------------------------------|
//! | 2    | OAM scan    | 80 T-cycles   | Finding which sprites are on this line |
//! | 3    | Drawing     | 172+ T-cycles | Pushing pixels; VRAM is busy           |
//! | 0    | HBlank      | the remainder | Idle until the line's 456 are up       |
//! | 1    | VBlank      | 10 lines      | Idle; the frame is done                |
//!
//! Mode 3's real duration varies with sprite count and scroll position, stealing
//! time from mode 0. We use a fixed 172, which keeps the line at 456 total. That is
//! accurate enough for games but not for tests that measure mode timing precisely.
//!
//! # Why the mode matters beyond drawing
//!
//! The mode gates VRAM and OAM access: during mode 3 the PPU is reading VRAM, so the
//! CPU cannot, and reads return 0xFF. Games work around this by doing all their
//! drawing during VBlank — which is why the VBlank interrupt is the heartbeat that
//! nearly every Game Boy game is structured around.
//!
//! # How the PPU is specified
//!
//! [`PpuModel`] is the PPU as a value, with its memories as sequences. Every
//! operation's contract says which model the operation produces, and
//! [`PpuModel::well_formed`] is the invariant the state machine keeps: the line
//! counter and the mode always agree about where in the frame the PPU is.
pub mod fetch;

use vstd::prelude::*;
use crate::interrupts::{Interrupt, InterruptState};

verus! {

pub const SCREEN_WIDTH: usize = 160;

pub const SCREEN_HEIGHT: usize = 144;

/// Pixels in one frame: `SCREEN_WIDTH * SCREEN_HEIGHT`.
pub const SCREEN_PIXELS: usize = 23040;

/// T-cycles in one scanline.
pub const CYCLES_PER_LINE: u32 = 456;

/// Scanlines per frame, including the 10 spent in VBlank.
pub const LINES_PER_FRAME: u8 = 154;

/// Duration of mode 2 (OAM scan).
pub const OAM_SCAN_CYCLES: u32 = 80;

/// Duration of mode 3 (drawing). Fixed here; real hardware varies it.
pub const DRAW_CYCLES: u32 = 172;

/// The PPU's current mode, which is also what STAT bits 0-1 report.
///
/// The variants are declared in mode-number order, so `mode as u8` is the number.
#[derive(Debug, Clone, Copy, PartialEq, Eq, Structural)]
pub enum Mode {
    /// Mode 0: idle for the rest of the line. VRAM and OAM are free.
    HBlank,
    /// Mode 1: the frame is finished. Everything is free; this is when games draw.
    VBlank,
    /// Mode 2: scanning OAM for sprites on this line. OAM is busy.
    OamScan,
    /// Mode 3: pushing pixels. Both VRAM and OAM are busy.
    Drawing,
}

impl Mode {
    /// The mode's number, as STAT reports it.
    pub open spec fn number_spec(self) -> u8 {
        match self {
            Mode::HBlank => 0,
            Mode::VBlank => 1,
            Mode::OamScan => 2,
            Mode::Drawing => 3,
        }
    }

    pub fn number(self) -> (r: u8)
        ensures
            r == self.number_spec(),
    {
        match self {
            Mode::HBlank => 0,
            Mode::VBlank => 1,
            Mode::OamScan => 2,
            Mode::Drawing => 3,
        }
    }
}

/// One of the four shades a DMG can display.
///
/// The hardware has no colour: a pixel is two bits, and the palette registers map
/// those to shades. Index 0 is lightest.
pub type Shade = u8;

/// The PPU as a value: registers as they are, memories as sequences.
#[verifier::ext_equal]
pub struct PpuModel {
    pub vram: Seq<u8>,
    pub oam: Seq<u8>,
    pub lcdc: u8,
    pub stat: u8,
    pub scy: u8,
    pub scx: u8,
    pub ly: u8,
    pub lyc: u8,
    pub bgp: u8,
    pub obp0: u8,
    pub obp1: u8,
    pub wy: u8,
    pub wx: u8,
    pub mode: Mode,
    pub line_cycles: u32,
    pub window_line: u8,
    pub framebuffer: Seq<u8>,
    pub frame_ready: bool,
}

pub struct Ppu {
    /// 8 KiB of video RAM at 0x8000-0x9FFF: tile data and the two tile maps.
    pub vram: [u8; 0x2000],
    /// Object Attribute Memory at 0xFE00-0xFE9F: 40 sprites, 4 bytes each.
    pub oam: [u8; 0xA0],
    /// LCDC (0xFF40) — the master control register.
    pub lcdc: u8,
    /// STAT (0xFF41) — interrupt-enable bits plus the read-only mode and LYC flag.
    pub stat: u8,
    /// SCY/SCX (0xFF42-43) — where in the 256x256 background the screen sits.
    pub scy: u8,
    pub scx: u8,
    /// LY (0xFF44) — the scanline being drawn. Read-only.
    pub ly: u8,
    /// LYC (0xFF45) — compared against LY to raise a STAT interrupt.
    pub lyc: u8,
    /// BGP (0xFF47) — maps background colour indices to shades.
    pub bgp: u8,
    /// OBP0/OBP1 (0xFF48-49) — the two sprite palettes.
    pub obp0: u8,
    pub obp1: u8,
    /// WY/WX (0xFF4A-4B) — the window's position. WX is offset by 7.
    pub wy: u8,
    pub wx: u8,
    pub mode: Mode,
    /// T-cycles elapsed in the current scanline.
    pub line_cycles: u32,
    /// Counts scanlines on which the window was drawn. The window has its own
    /// counter because it does not scroll with the background: it advances only on
    /// lines where the window is actually visible.
    pub window_line: u8,
    /// The completed picture, one shade per pixel.
    pub framebuffer: [Shade; 23040],
    /// Set when a frame completes, so the caller knows to present it.
    pub frame_ready: bool,
}

impl View for Ppu {
    type V = PpuModel;

    open spec fn view(&self) -> PpuModel {
        PpuModel {
            vram: self.vram@,
            oam: self.oam@,
            lcdc: self.lcdc,
            stat: self.stat,
            scy: self.scy,
            scx: self.scx,
            ly: self.ly,
            lyc: self.lyc,
            bgp: self.bgp,
            obp0: self.obp0,
            obp1: self.obp1,
            wy: self.wy,
            wx: self.wx,
            mode: self.mode,
            line_cycles: self.line_cycles,
            window_line: self.window_line,
            framebuffer: self.framebuffer@,
            frame_ready: self.frame_ready,
        }
    }
}

impl PpuModel {
    // --- LCDC bits, per register 9.1 ---
    pub open spec fn lcd_enabled(self) -> bool {
        self.lcdc & 0x80 != 0
    }

    /// WIN_MAP: which tile map the window uses, as a VRAM offset.
    pub open spec fn window_map_base(self) -> u16 {
        if self.lcdc & 0x40 != 0 {
            0x1C00
        } else {
            0x1800
        }
    }

    pub open spec fn window_enabled(self) -> bool {
        self.lcdc & 0x20 != 0
    }

    /// TILE_SEL: which addressing mode background and window tiles use.
    pub open spec fn signed_tile_addressing(self) -> bool {
        self.lcdc & 0x10 == 0
    }

    /// BG_MAP: which tile map the background uses, as a VRAM offset.
    pub open spec fn bg_map_base(self) -> u16 {
        if self.lcdc & 0x08 != 0 {
            0x1C00
        } else {
            0x1800
        }
    }

    /// OBJ_SIZE: sprites are 8x8 or 8x16.
    pub open spec fn tall_sprites(self) -> bool {
        self.lcdc & 0x04 != 0
    }

    pub open spec fn sprites_enabled(self) -> bool {
        self.lcdc & 0x02 != 0
    }

    /// BG_EN: on a DMG, clearing this blanks the background *and* the window.
    pub open spec fn bg_enabled(self) -> bool {
        self.lcdc & 0x01 != 0
    }

    /// The state machine's invariant.
    ///
    /// STAT holds only what is written to it and the LYC=LY flag: its mode bits and
    /// bit 7 come from the state machine when it is read. The memories have their
    /// hardware sizes; a line is 456 cycles, spent 80 in
    /// mode 2, 172 in mode 3 and the rest in mode 0; the PPU is in VBlank exactly on
    /// lines 144-153; and the window's own line counter never runs ahead of the
    /// screen's (by one, once the current line has been drawn).
    pub open spec fn well_formed(self) -> bool {
        &&& self.vram.len() == 0x2000
        &&& self.oam.len() == 0xA0
        &&& self.framebuffer.len() == 23040
        &&& self.stat & 0x83 == 0
        &&& self.ly < 154
        &&& self.line_cycles < 456
        &&& self.line_cycles % 4 == 0
        &&& self.lcd_enabled() ==> {
            &&& (self.mode == Mode::VBlank <==> self.ly >= 144)
            &&& match self.mode {
                Mode::OamScan => self.line_cycles < 80,
                Mode::Drawing => 80 <= self.line_cycles < 252,
                Mode::HBlank => 252 <= self.line_cycles,
                Mode::VBlank => true,
            }
        }
        &&& !self.lcd_enabled() ==> self.ly < 144
        &&& self.window_line <= self.ly + (if self.lcd_enabled() && self.mode == Mode::HBlank {
            1int
        } else {
            0int
        })
    }

    /// The PPU as the boot ROM leaves it: the LCD on, showing the background.
    pub open spec fn initial() -> PpuModel {
        PpuModel {
            vram: Seq::new(0x2000, |i: int| 0u8),
            oam: Seq::new(0xA0, |i: int| 0u8),
            lcdc: 0x91,
            stat: 0x00,
            scy: 0,
            scx: 0,
            ly: 0,
            lyc: 0,
            bgp: 0xFC,
            obp0: 0xFF,
            obp1: 0xFF,
            wy: 0,
            wx: 0,
            mode: Mode::OamScan,
            line_cycles: 0,
            window_line: 0,
            framebuffer: Seq::new(23040, |i: int| 0u8),
            frame_ready: false,
        }
    }

    /// Whether STAT asks for an interrupt on entering `mode`.
    pub open spec fn stat_interrupt_for(self, mode: Mode) -> bool {
        match mode {
            Mode::HBlank => self.stat & 0x08 != 0,
            Mode::VBlank => self.stat & 0x10 != 0,
            Mode::OamScan => self.stat & 0x20 != 0,
            Mode::Drawing => false,
        }
    }

    pub open spec fn set_mode_spec(self, mode: Mode, interrupts: InterruptState) -> (
        PpuModel,
        InterruptState,
    ) {
        (
            PpuModel { mode, ..self },
            if self.stat_interrupt_for(mode) {
                interrupts.request_spec(Interrupt::Stat)
            } else {
                interrupts
            },
        )
    }

    pub open spec fn check_lyc_spec(self, interrupts: InterruptState) -> (
        PpuModel,
        InterruptState,
    ) {
        if self.ly == self.lyc {
            let stat = self.stat | 0x04;
            (
                PpuModel { stat, ..self },
                if stat & 0x40 != 0 {
                    interrupts.request_spec(Interrupt::Stat)
                } else {
                    interrupts
                },
            )
        } else {
            (PpuModel { stat: self.stat & !0x04u8, ..self }, interrupts)
        }
    }

    pub open spec fn next_line_spec(self, interrupts: InterruptState) -> (
        PpuModel,
        InterruptState,
    ) {
        let p = PpuModel {
            line_cycles: (self.line_cycles - 456) as u32,
            ly: (self.ly + 1) as u8,
            ..self
        };
        let (p, ints) = if p.ly == 144 {
            let (p, ints) = p.set_mode_spec(Mode::VBlank, interrupts);
            (PpuModel { frame_ready: true, ..p }, ints.request_spec(Interrupt::VBlank))
        } else if p.ly >= 154 {
            PpuModel { ly: 0, window_line: 0, ..p }.set_mode_spec(Mode::OamScan, interrupts)
        } else if p.ly < 144 {
            p.set_mode_spec(Mode::OamScan, interrupts)
        } else {
            (p, interrupts)
        };
        p.check_lyc_spec(ints)
    }

    /// One M-cycle (4 T-cycles).
    pub open spec fn tick_spec(self, interrupts: InterruptState) -> (PpuModel, InterruptState) {
        if !self.lcd_enabled() {
            (self, interrupts)
        } else {
            let p = PpuModel { line_cycles: (self.line_cycles + 4) as u32, ..self };
            match p.mode {
                Mode::OamScan => if p.line_cycles >= 80 {
                    (PpuModel { mode: Mode::Drawing, ..p }, interrupts)
                } else {
                    (p, interrupts)
                },
                Mode::Drawing => if p.line_cycles >= 252 {
                    p.draw_line_spec().set_mode_spec(Mode::HBlank, interrupts)
                } else {
                    (p, interrupts)
                },
                _ => if p.line_cycles >= 456 {
                    p.next_line_spec(interrupts)
                } else {
                    (p, interrupts)
                },
            }
        }
    }

    pub open spec fn read_spec(self, address: u16) -> u8 {
        if address == 0xFF40 {
            self.lcdc
        } else if address == 0xFF41 {
            self.stat | 0x80 | self.mode.number_spec()
        } else if address == 0xFF42 {
            self.scy
        } else if address == 0xFF43 {
            self.scx
        } else if address == 0xFF44 {
            self.ly
        } else if address == 0xFF45 {
            self.lyc
        } else if address == 0xFF47 {
            self.bgp
        } else if address == 0xFF48 {
            self.obp0
        } else if address == 0xFF49 {
            self.obp1
        } else if address == 0xFF4A {
            self.wy
        } else if address == 0xFF4B {
            self.wx
        } else {
            0xFF
        }
    }

    /// LCDC after a write: switching the LCD off parks the state machine at the top
    /// of the screen in mode 0; switching it on starts a line in mode 2.
    pub open spec fn write_lcdc_spec(self, value: u8) -> PpuModel {
        let p = PpuModel { lcdc: value, ..self };
        if self.lcd_enabled() && !p.lcd_enabled() {
            PpuModel { ly: 0, line_cycles: 0, window_line: 0, mode: Mode::HBlank, ..p }
        } else if !self.lcd_enabled() && p.lcd_enabled() {
            PpuModel { line_cycles: 0, mode: Mode::OamScan, ..p }
        } else {
            p
        }
    }

    pub open spec fn write_spec(self, address: u16, value: u8) -> PpuModel {
        if address == 0xFF40 {
            self.write_lcdc_spec(value)
        } else if address == 0xFF41 {
            PpuModel { stat: (self.stat & 0x87) | (value & 0x78), ..self }
        } else if address == 0xFF42 {
            PpuModel { scy: value, ..self }
        } else if address == 0xFF43 {
            PpuModel { scx: value, ..self }
        } else if address == 0xFF45 {
            PpuModel { lyc: value, ..self }
        } else if address == 0xFF47 {
            PpuModel { bgp: value, ..self }
        } else if address == 0xFF48 {
            PpuModel { obp0: value, ..self }
        } else if address == 0xFF49 {
            PpuModel { obp1: value, ..self }
        } else if address == 0xFF4A {
            PpuModel { wy: value, ..self }
        } else if address == 0xFF4B {
            PpuModel { wx: value, ..self }
        } else {
            self
        }
    }

    /// Whether the CPU is locked out of VRAM: only while the PPU is drawing.
    pub open spec fn vram_locked(self) -> bool {
        self.lcd_enabled() && self.mode == Mode::Drawing
    }

    /// Whether the CPU is locked out of OAM: during the sprite scan and drawing.
    pub open spec fn oam_locked(self) -> bool {
        self.lcd_enabled() && (self.mode == Mode::OamScan || self.mode == Mode::Drawing)
    }

    pub open spec fn read_vram_spec(self, address: u16) -> u8 {
        if self.vram_locked() {
            0xFF
        } else {
            self.vram[(address % 0x2000) as int]
        }
    }

    pub open spec fn write_vram_spec(self, address: u16, value: u8) -> PpuModel {
        if self.vram_locked() {
            self
        } else {
            PpuModel { vram: self.vram.update((address % 0x2000) as int, value), ..self }
        }
    }

    pub open spec fn read_oam_spec(self, address: u16) -> u8 {
        if self.oam_locked() {
            0xFF
        } else {
            self.oam[(address % 0x100) as int]
        }
    }

    pub open spec fn write_oam_spec(self, address: u16, value: u8) -> PpuModel {
        if self.oam_locked() {
            self
        } else {
            PpuModel { oam: self.oam.update((address % 0x100) as int, value), ..self }
        }
    }
}

/// Where the PPU is in the frame, in T-cycles since the start of line 0.
pub open spec fn frame_position(p: PpuModel) -> int {
    p.ly * 456 + p.line_cycles
}

/// A frame is 70224 T-cycles, 154 lines of 456: with the LCD on, each M-cycle moves
/// the PPU four T-cycles on through the frame, wrapping back to line 0 after line 153.
pub proof fn lemma_tick_advances_the_frame(p: PpuModel, interrupts: InterruptState)
    requires
        p.well_formed(),
        p.lcd_enabled(),
    ensures
        frame_position(p.tick_spec(interrupts).0) == (frame_position(p) + 4) % 70224,
        p.tick_spec(interrupts).0.well_formed(),
{
    lemma_stat_updates_keep_the_mode_bits_clear(p.stat, 0);
    let q = PpuModel { line_cycles: (p.line_cycles + 4) as u32, ..p };
    if q.mode == Mode::Drawing && q.line_cycles >= 252 {
        assert(q.draw_line_spec().ly == q.ly && q.draw_line_spec().line_cycles == q.line_cycles);
    }
    if (q.mode == Mode::HBlank || q.mode == Mode::VBlank) && q.line_cycles >= 456 {
        assert(p.line_cycles == 452);
    }
}

/// The PPU after `n` M-cycles, starting with the interrupt flags `interrupts`.
pub open spec fn run_ticks(p: PpuModel, interrupts: InterruptState, n: nat) -> (
    PpuModel,
    InterruptState,
)
    decreases n,
{
    if n == 0 {
        (p, interrupts)
    } else {
        let (q, ints) = p.tick_spec(interrupts);
        run_ticks(q, ints, (n - 1) as nat)
    }
}

/// With the LCD on, `n` M-cycles move the PPU `4n` T-cycles through the frame.
pub proof fn lemma_ticks_advance_the_frame(p: PpuModel, interrupts: InterruptState, n: nat)
    requires
        p.well_formed(),
        p.lcd_enabled(),
    ensures
        frame_position(run_ticks(p, interrupts, n).0) == (frame_position(p) + 4 * n) % 70224,
        run_ticks(p, interrupts, n).0.well_formed(),
        run_ticks(p, interrupts, n).0.lcd_enabled(),
    decreases n,
{
    if n > 0 {
        let (q, ints) = p.tick_spec(interrupts);
        lemma_tick_advances_the_frame(p, interrupts);
        assert(q.lcdc == p.lcdc) by {
            let r = PpuModel { line_cycles: (p.line_cycles + 4) as u32, ..p };
            if r.mode == Mode::Drawing && r.line_cycles >= 252 {
                assert(r.draw_line_spec().lcdc == r.lcdc);
            }
        }
        lemma_ticks_advance_the_frame(q, ints, (n - 1) as nat);
        let a = frame_position(p);
        assert(((a + 4) % 70224 + 4 * (n - 1)) % 70224 == (a + 4 * n) % 70224) by (nonlinear_arith)
            requires
                n >= 1,
        ;
    }
}

/// A frame is 17556 M-cycles: after that many, the PPU is on the same line, at the
/// same point of it, in the same mode.
pub proof fn lemma_frames_repeat(p: PpuModel, interrupts: InterruptState)
    requires
        p.well_formed(),
        p.lcd_enabled(),
    ensures
        run_ticks(p, interrupts, 17556).0.ly == p.ly,
        run_ticks(p, interrupts, 17556).0.line_cycles == p.line_cycles,
        run_ticks(p, interrupts, 17556).0.mode == p.mode,
{
    lemma_ticks_advance_the_frame(p, interrupts, 17556);
    let q = run_ticks(p, interrupts, 17556).0;
    let a = frame_position(p);
    assert((a + 4 * 17556) % 70224 == a);
    assert(q.ly * 456 + q.line_cycles == p.ly * 456 + p.line_cycles);
    assert(q.ly == p.ly && q.line_cycles == p.line_cycles);
}

/// Entering line 144 starts VBlank: the frame is marked ready and the VBlank
/// interrupt is requested.
pub proof fn lemma_line_144_starts_vblank(p: PpuModel, interrupts: InterruptState)
    requires
        p.well_formed(),
        p.lcd_enabled(),
        p.ly == 143,
        p.line_cycles == 452,
    ensures
        p.tick_spec(interrupts).0.ly == 144,
        p.tick_spec(interrupts).0.mode == Mode::VBlank,
        p.tick_spec(interrupts).0.frame_ready,
        p.tick_spec(interrupts).1.requested & 0x01 == 0x01,
{
    let p1 = PpuModel { line_cycles: 456, ..p };
    assert(p1.mode == Mode::HBlank);
    let p2 = PpuModel { line_cycles: 0, ly: 144, ..p1 };
    let (p3, i3) = p2.set_mode_spec(Mode::VBlank, interrupts);
    let x = i3.requested;
    assert(i3.request_spec(Interrupt::VBlank).requested == x | 0x01);
    assert((x | 0x01u8) & 0x01 == 0x01 && ((x | 0x01u8) | 0x02u8) & 0x01 == 0x01) by (bit_vector);
}

/// VRAM reads back what was written, unless the PPU is drawing, when the CPU can
/// neither read it nor write it.
pub proof fn lemma_vram_reads_back(p: PpuModel, address: u16, value: u8)
    requires
        p.vram.len() == 0x2000,
    ensures
        !p.vram_locked() ==> p.write_vram_spec(address, value).read_vram_spec(address) == value,
        p.vram_locked() ==> p.write_vram_spec(address, value) == p && p.read_vram_spec(address)
            == 0xFF,
{
}

/// OAM likewise, locked during the sprite scan as well as while drawing.
pub proof fn lemma_oam_reads_back(p: PpuModel, address: u16, value: u8)
    requires
        p.oam.len() == 0xA0,
        address % 0x100 < 0xA0,
    ensures
        !p.oam_locked() ==> p.write_oam_spec(address, value).read_oam_spec(address) == value,
        p.oam_locked() ==> p.write_oam_spec(address, value) == p && p.read_oam_spec(address)
            == 0xFF,
{
}

/// The low 13 bits of an address are its offset in VRAM.
pub proof fn lemma_vram_offset(address: u16)
    ensures
        address & 0x1FFF == address % 0x2000,
{
    assert(address & 0x1FFF == address % 0x2000) by (bit_vector);
}

/// The low byte of an address is its offset in OAM's page.
pub proof fn lemma_low_byte(address: u16)
    ensures
        address & 0xFF == address % 0x100,
{
    assert(address & 0xFF == address % 0x100) by (bit_vector);
}

impl Ppu {
    pub fn new() -> (r: Self)
        ensures
            r@ == PpuModel::initial(),
            r@.well_formed(),
    {
        proof {
            lemma_stat_updates_keep_the_mode_bits_clear(0, 0);
        }
        let r = Ppu {
            vram: [0; 0x2000],
            oam: [0; 0xA0],
            // Post-boot values: the LCD is on, showing the background.
            lcdc: 0x91,
            stat: 0x00,
            scy: 0,
            scx: 0,
            ly: 0,
            lyc: 0,
            bgp: 0xFC,
            obp0: 0xFF,
            obp1: 0xFF,
            wy: 0,
            wx: 0,
            mode: Mode::OamScan,
            line_cycles: 0,
            window_line: 0,
            framebuffer: [0; 23040],
            frame_ready: false,
        };
        proof {
            assert(r@.vram =~= PpuModel::initial().vram);
            assert(r@.oam =~= PpuModel::initial().oam);
            assert(r@.framebuffer =~= PpuModel::initial().framebuffer);
            assert(0x91u8 & 0x80 != 0) by (bit_vector);
        }
        r
    }

    // --- LCDC bits, per register 9.1 ---
    fn lcd_enabled(&self) -> (r: bool)
        ensures
            r == self@.lcd_enabled(),
    {
        self.lcdc & 0x80 != 0
    }

    /// WIN_MAP: which tile map the window uses.
    fn window_map_base(&self) -> (r: u16)
        ensures
            r == self@.window_map_base(),
    {
        if self.lcdc & 0x40 != 0 {
            0x1C00
        } else {
            0x1800
        }
    }

    fn window_enabled(&self) -> (r: bool)
        ensures
            r == self@.window_enabled(),
    {
        self.lcdc & 0x20 != 0
    }

    /// TILE_SEL: which addressing mode background and window tiles use.
    fn signed_tile_addressing(&self) -> (r: bool)
        ensures
            r == self@.signed_tile_addressing(),
    {
        self.lcdc & 0x10 == 0
    }

    /// BG_MAP: which tile map the background uses.
    fn bg_map_base(&self) -> (r: u16)
        ensures
            r == self@.bg_map_base(),
    {
        if self.lcdc & 0x08 != 0 {
            0x1C00
        } else {
            0x1800
        }
    }

    /// OBJ_SIZE: sprites are 8x8 or 8x16.
    fn tall_sprites(&self) -> (r: bool)
        ensures
            r == self@.tall_sprites(),
    {
        self.lcdc & 0x04 != 0
    }

    fn sprites_enabled(&self) -> (r: bool)
        ensures
            r == self@.sprites_enabled(),
    {
        self.lcdc & 0x02 != 0
    }

    /// BG_EN: on a DMG, clearing this blanks the background *and* the window.
    fn bg_enabled(&self) -> (r: bool)
        ensures
            r == self@.bg_enabled(),
    {
        self.lcdc & 0x01 != 0
    }

    /// Advances the PPU by one M-cycle (4 T-cycles).
    pub fn tick(&mut self, interrupts: &mut InterruptState)
        requires
            old(self)@.well_formed(),
        ensures
            (final(self)@, *final(interrupts)) == old(self)@.tick_spec(*old(interrupts)),
            final(self)@.well_formed(),
    {
        proof {
            lemma_stat_updates_keep_the_mode_bits_clear(self.stat, 0);
        }
        if !self.lcd_enabled() {
            return;
        }
        self.line_cycles = self.line_cycles + 4;

        match self.mode {
            Mode::OamScan => {
                if self.line_cycles >= OAM_SCAN_CYCLES {
                    // Drawing is not interruptible and has no STAT interrupt of its own.
                    self.mode = Mode::Drawing;
                }
            },
            Mode::Drawing => {
                if self.line_cycles >= OAM_SCAN_CYCLES + DRAW_CYCLES {
                    // The line's pixels are produced in one go on entering HBlank.
                    // Real hardware emits them progressively during mode 3; drawing
                    // the whole line at once is indistinguishable unless a game
                    // changes registers mid-line, which is a mid-scanline effect we
                    // don't model.
                    self.draw_line();
                    self.set_mode(Mode::HBlank, interrupts);
                }
            },
            Mode::HBlank => {
                if self.line_cycles >= CYCLES_PER_LINE {
                    self.next_line(interrupts);
                }
            },
            Mode::VBlank => {
                if self.line_cycles >= CYCLES_PER_LINE {
                    self.next_line(interrupts);
                }
            },
        }
    }

    /// Ends the current scanline and starts the next.
    fn next_line(&mut self, interrupts: &mut InterruptState)
        requires
            old(self).line_cycles >= 456,
            old(self).ly < 154,
        ensures
            (final(self)@, *final(interrupts)) == old(self)@.next_line_spec(*old(interrupts)),
    {
        self.line_cycles = self.line_cycles - CYCLES_PER_LINE;
        self.ly = self.ly + 1;

        if self.ly == 144 {
            // The visible lines are done: the frame is complete.
            self.set_mode(Mode::VBlank, interrupts);
            interrupts.request(Interrupt::VBlank);
            self.frame_ready = true;
        } else if self.ly >= LINES_PER_FRAME {
            // Wrap around to the top of the next frame.
            self.ly = 0;
            self.window_line = 0;
            self.set_mode(Mode::OamScan, interrupts);
        } else if self.ly < 144 {
            self.set_mode(Mode::OamScan, interrupts);
        }
        self.check_lyc(interrupts);
    }

    /// Changes mode and raises a STAT interrupt if the program asked for this one.
    ///
    /// STAT bits 3-5 (`INTR_M0`, `INTR_M1`, `INTR_M2`) each enable the interrupt for
    /// one mode. There is no interrupt for mode 3.
    fn set_mode(&mut self, mode: Mode, interrupts: &mut InterruptState)
        ensures
            (final(self)@, *final(interrupts)) == old(self)@.set_mode_spec(mode, *old(interrupts)),
    {
        self.mode = mode;
        let enabled = match mode {
            Mode::HBlank => self.stat & 0x08 != 0,
            Mode::VBlank => self.stat & 0x10 != 0,
            Mode::OamScan => self.stat & 0x20 != 0,
            Mode::Drawing => false,
        };
        if enabled {
            interrupts.request(Interrupt::Stat);
        }
    }

    /// Updates the LYC=LY flag and raises a STAT interrupt on a match.
    ///
    /// Games use this as a mid-frame trigger — the classic use is splitting the
    /// screen so a status bar stays put while the rest scrolls.
    fn check_lyc(&mut self, interrupts: &mut InterruptState)
        ensures
            (final(self)@, *final(interrupts)) == old(self)@.check_lyc_spec(*old(interrupts)),
    {
        let matched = self.ly == self.lyc;
        if matched {
            self.stat = self.stat | 0x04;
            if self.stat & 0x40 != 0 {
                interrupts.request(Interrupt::Stat);
            }
        } else {
            self.stat = self.stat & !0x04u8;
        }
    }

    // --- Register access ---
    pub fn read(&self, address: u16) -> (r: u8)
        ensures
            r == self@.read_spec(address),
    {
        match address {
            0xFF40 => self.lcdc,
            // Bit 7 is unimplemented and reads as 1; bits 0-2 are the live mode and
            // LYC flag rather than what was written.
            0xFF41 => self.stat | 0x80 | self.mode.number(),
            0xFF42 => self.scy,
            0xFF43 => self.scx,
            0xFF44 => self.ly,
            0xFF45 => self.lyc,
            0xFF47 => self.bgp,
            0xFF48 => self.obp0,
            0xFF49 => self.obp1,
            0xFF4A => self.wy,
            0xFF4B => self.wx,
            _ => 0xFF,
        }
    }

    pub fn write(&mut self, address: u16, value: u8)
        requires
            old(self)@.well_formed(),
        ensures
            final(self)@ == old(self)@.write_spec(address, value),
            final(self)@.well_formed(),
    {
        proof {
            lemma_stat_updates_keep_the_mode_bits_clear(self.stat, value);
        }
        match address {
            0xFF40 => {
                let was_on = self.lcd_enabled();
                self.lcdc = value;
                if was_on && !self.lcd_enabled() {
                    // Switching the LCD off resets the state machine: LY goes to 0
                    // and the PPU parks in mode 0. Games do this before bulk VRAM
                    // updates, since with the LCD off VRAM is always accessible.
                    self.ly = 0;
                    self.line_cycles = 0;
                    self.window_line = 0;
                    self.mode = Mode::HBlank;
                } else if !was_on && self.lcd_enabled() {
                    self.line_cycles = 0;
                    self.mode = Mode::OamScan;
                }
            },
            // Only bits 3-6 are writable; the mode and LYC flag are read-only.
            0xFF41 => self.stat = (self.stat & 0x87) | (value & 0x78),
            0xFF42 => self.scy = value,
            0xFF43 => self.scx = value,
            // LY is read-only. Writes are ignored, not stored.
            0xFF44 => {},
            0xFF45 => self.lyc = value,
            0xFF47 => self.bgp = value,
            0xFF48 => self.obp0 = value,
            0xFF49 => self.obp1 = value,
            0xFF4A => self.wy = value,
            0xFF4B => self.wx = value,
            _ => {},
        }
    }

    /// VRAM is inaccessible to the CPU during mode 3, when the PPU is reading it.
    pub fn read_vram(&self, address: u16) -> (r: u8)
        ensures
            r == self@.read_vram_spec(address),
    {
        if self.lcd_enabled() && self.mode == Mode::Drawing {
            return 0xFF;
        }
        proof {
            lemma_vram_offset(address);
        }
        self.vram[(address & 0x1FFF) as usize]
    }

    pub fn write_vram(&mut self, address: u16, value: u8)
        ensures
            final(self)@ == old(self)@.write_vram_spec(address, value),
    {
        if self.lcd_enabled() && self.mode == Mode::Drawing {
            return;
        }
        proof {
            lemma_vram_offset(address);
        }
        self.vram[(address & 0x1FFF) as usize] = value;
    }

    /// OAM is inaccessible during both the sprite scan and drawing.
    pub fn read_oam(&self, address: u16) -> (r: u8)
        requires
            !self@.oam_locked() ==> address % 0x100 < 0xA0,
        ensures
            r == self@.read_oam_spec(address),
    {
        if self.lcd_enabled() && (self.mode == Mode::OamScan || self.mode == Mode::Drawing) {
            return 0xFF;
        }
        proof {
            lemma_low_byte(address);
        }
        self.oam[(address & 0xFF) as usize]
    }

    pub fn write_oam(&mut self, address: u16, value: u8)
        requires
            !old(self)@.oam_locked() ==> address % 0x100 < 0xA0,
        ensures
            final(self)@ == old(self)@.write_oam_spec(address, value),
    {
        if self.lcd_enabled() && (self.mode == Mode::OamScan || self.mode == Mode::Drawing) {
            return;
        }
        proof {
            lemma_low_byte(address);
        }
        self.oam[(address & 0xFF) as usize] = value;
    }

    /// Writes OAM regardless of mode, for DMA transfers.
    ///
    /// OAM DMA bypasses the normal restrictions because it is the DMA controller
    /// writing, not the CPU.
    pub fn write_oam_dma(&mut self, offset: u8, value: u8)
        requires
            offset < 0xA0,
        ensures
            final(self)@ == (PpuModel { oam: old(self)@.oam.update(offset as int, value), ..old(self)@ }),
    {
        self.oam[offset as usize] = value;
    }

    pub fn framebuffer(&self) -> (r: &[Shade; 23040])
        ensures
            r@ == self@.framebuffer,
    {
        &self.framebuffer
    }

    /// The current mode.
    pub fn mode(&self) -> (r: Mode)
        ensures
            r == self@.mode,
    {
        self.mode
    }

    pub fn ly(&self) -> (r: u8)
        ensures
            r == self@.ly,
    {
        self.ly
    }
}

impl Default for Ppu {
    fn default() -> (r: Self)
        ensures
            r@ == PpuModel::initial(),
    {
        Self::new()
    }
}

/// The CPU cannot move the PPU: LY ignores writes, and a STAT write changes only
/// the interrupt-enable bits 3-6 — the mode and the LYC=LY flag stay what the PPU made
/// them.
pub proof fn lemma_the_cpu_cannot_move_the_ppu(p: PpuModel, value: u8)
    ensures
        p.write_spec(0xFF44, value) == p,
        p.write_spec(0xFF41, value).mode == p.mode,
        p.write_spec(0xFF41, value).stat & 0x87 == p.stat & 0x87,
        p.write_spec(0xFF41, value).stat & 0x78 == value & 0x78,
{
    let stat = p.stat;
    assert(((stat & 0x87) | (value & 0x78)) & 0x87 == stat & 0x87 && ((stat & 0x87) | (value
        & 0x78)) & 0x78 == value & 0x78) by (bit_vector);
}

/// Switching the LCD off parks the PPU at the top of the screen in HBlank, where it
/// stays however long it is ticked, with VRAM and OAM open to the CPU.
pub proof fn lemma_lcd_off_parks_the_ppu(p: PpuModel, value: u8, interrupts: InterruptState)
    requires
        p.lcd_enabled(),
        value & 0x80 == 0,
    ensures
        ({
            let off = p.write_spec(0xFF40, value);
            &&& off.ly == 0
            &&& off.mode == Mode::HBlank
            &&& !off.vram_locked()
            &&& !off.oam_locked()
            &&& off.tick_spec(interrupts) == (off, interrupts)
        }),
{
}

/// The STAT bits the PPU and the CPU change — the LYC=LY flag and the interrupt
/// enables — leave the mode bits and bit 7 clear.
pub proof fn lemma_stat_updates_keep_the_mode_bits_clear(stat: u8, value: u8)
    ensures
        (stat | 0x04) & 0x83 == stat & 0x83,
        (stat & !0x04u8) & 0x83 == stat & 0x83,
        ((stat & 0x87) | (value & 0x78)) & 0x83 == stat & 0x83,
        0u8 & 0x83 == 0,
        (stat | 0x04) & 0x40 == stat & 0x40,
{
    assert((stat | 0x04) & 0x83 == stat & 0x83 && (stat & !0x04u8) & 0x83 == stat & 0x83 && ((
    stat & 0x87) | (value & 0x78)) & 0x83 == stat & 0x83 && 0u8 & 0x83 == 0 && (stat | 0x04)
        & 0x40 == stat & 0x40) by (bit_vector);
}

/// STAT reports the live mode in its low two bits, reads bit 7 as 1, and shows the
/// LYC=LY flag and the interrupt enables as they are held.
pub proof fn lemma_stat_reports_the_live_mode(p: PpuModel)
    requires
        p.well_formed(),
    ensures
        p.read_spec(0xFF41) & 0x03 == p.mode.number_spec(),
        p.read_spec(0xFF41) & 0x80 == 0x80,
        p.read_spec(0xFF41) & 0x7C == p.stat & 0x7C,
{
    let stat = p.stat;
    let n = p.mode.number_spec();
    assert(n < 4);
    assert(stat & 0x83 == 0 && n < 4 ==> (stat | 0x80 | n) & 0x03 == n && (stat | 0x80 | n) & 0x80
        == 0x80 && (stat | 0x80 | n) & 0x7C == stat & 0x7C) by (bit_vector);
}

/// STAT bits 3, 4 and 5 ask for the STAT interrupt on entering HBlank, VBlank and
/// the OAM scan: with the LCD on and the LYC interrupt off, the tick that enters one of
/// those modes requests STAT exactly when its bit is set. Entering VBlank also
/// requests the VBlank interrupt, whatever STAT says.
pub proof fn lemma_stat_bits_pick_the_modes(p: PpuModel, interrupts: InterruptState)
    requires
        p.well_formed(),
        p.lcd_enabled(),
        p.stat & 0x40 == 0,
    ensures
        ({
            let (q, ints) = p.tick_spec(interrupts);
            let with_stat = interrupts.request_spec(Interrupt::Stat);
            &&& p.mode == Mode::HBlank && p.line_cycles == 452 && p.ly < 143 ==> q.mode
                == Mode::OamScan && ints == if p.stat & 0x20 != 0 {
                with_stat
            } else {
                interrupts
            }
            &&& p.mode == Mode::HBlank && p.line_cycles == 452 && p.ly == 143 ==> q.mode
                == Mode::VBlank && ints == (if p.stat & 0x10 != 0 {
                with_stat
            } else {
                interrupts
            }).request_spec(Interrupt::VBlank)
            &&& p.mode == Mode::Drawing && p.line_cycles == 248 ==> q.mode == Mode::HBlank && ints
                == if p.stat & 0x08 != 0 {
                with_stat
            } else {
                interrupts
            }
        }),
{
    let q = PpuModel { line_cycles: (p.line_cycles + 4) as u32, ..p };
    lemma_stat_updates_keep_the_mode_bits_clear(p.stat, 0);
    if p.mode == Mode::Drawing && p.line_cycles == 248 {
        assert(q.draw_line_spec().stat == q.stat);
    }
}

} // verus!
