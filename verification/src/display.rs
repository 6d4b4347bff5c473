//! How the frontends present the machine: the frame rate and the screen's colours.
use vstd::prelude::*;

verus! {

/// One frame of the real hardware: 70224 T-cycles at 4194304 Hz, in nanoseconds.
/// That is about 59.73 frames a second, not 60.
pub const FRAME_TIME_NANOS: u64 = 16_742_706;

/// How many frames between checks for unsaved cartridge RAM: about two seconds.
pub const AUTOSAVE_FRAMES: u64 = 120;

/// The four DMG shades as RGBA, from lightest to darkest.
///
/// The classic green-tinted LCD look rather than plain grey: the real screen was a
/// reflective LCD with a distinctly olive cast, and games were designed against it.
pub const PALETTE: [[u8; 4]; 4] = [
    [0xE0, 0xF8, 0xD0, 0xFF],
    [0x88, 0xC0, 0x70, 0xFF],
    [0x34, 0x68, 0x56, 0xFF],
    [0x08, 0x18, 0x20, 0xFF],
];

/// The colour a pixel of shade `shade` shows; only the low two bits are a shade.
pub fn shade_colour(shade: u8) -> (r: [u8; 4])
    ensures
        r == PALETTE@[(shade % 4) as int],
{
    PALETTE[(shade % 4) as usize]
}

/// The brightness of an RGBA colour, as the sum of its colour channels.
pub open spec fn luma(colour: [u8; 4]) -> int {
    colour@[0] + colour@[1] + colour@[2]
}

/// Shade 0 is the lightest on hardware: each shade's colour is darker than the last.
pub proof fn lemma_palette_darkens()
    ensures
        forall|i: int| 0 <= i < 3 ==> luma(#[trigger] PALETTE@[i]) > luma(PALETTE@[i + 1]),
{
    assert(PALETTE@[0]@ =~= seq![0xE0u8, 0xF8, 0xD0, 0xFF]);
    assert(PALETTE@[1]@ =~= seq![0x88u8, 0xC0, 0x70, 0xFF]);
    assert(PALETTE@[2]@ =~= seq![0x34u8, 0x68, 0x56, 0xFF]);
    assert(PALETTE@[3]@ =~= seq![0x08u8, 0x18, 0x20, 0xFF]);
}

} // verus!
