//! The joypad: register P1 at 0xFF00.
//!
//! Eight buttons are read through four pins, using a matrix. The program writes
//! P15/P14 (bits 5 and 4) to select *which* group of four it wants, then reads
//! P13-P10 (bits 3-0) to get their state. The select bits are write-only and the
//! input bits are read-only.
//!
//! # Everything is inverted
//!
//! A pressed button reads **0**, not 1, and a group is selected by writing **0** to
//! its select bit. The buttons are wired to pull the line low, which is how
//! essentially all matrix keypads work. All the inversion is kept in one place here
//! and the public API speaks in plain "pressed = true".
use vstd::prelude::*;
use crate::interrupts::{Interrupt, InterruptState};

verus! {

/// The eight buttons, grouped as the hardware reads them.
#[derive(Debug, Clone, Copy, PartialEq, Eq, Structural)]
pub enum Button {
    // Selected by P14: the d-pad.
    Right,
    Left,
    Up,
    Down,
    // Selected by P15: the action buttons.
    A,
    B,
    Select,
    Start,
}

impl Button {
    /// Which of the four input lines this button pulls low.
    pub open spec fn line_spec(self) -> u8 {
        match self {
            Button::Right | Button::A => 0,
            Button::Left | Button::B => 1,
            Button::Up | Button::Select => 2,
            Button::Down | Button::Start => 3,
        }
    }

    pub open spec fn is_direction_spec(self) -> bool {
        match self {
            Button::Right | Button::Left | Button::Up | Button::Down => true,
            _ => false,
        }
    }

    /// The button's bit in [`Joypad::pressed`]: directions in the low nibble, actions
    /// in the high nibble.
    pub open spec fn mask_spec(self) -> u8 {
        match self {
            Button::Right => 0x01,
            Button::Left => 0x02,
            Button::Up => 0x04,
            Button::Down => 0x08,
            Button::A => 0x10,
            Button::B => 0x20,
            Button::Select => 0x40,
            Button::Start => 0x80,
        }
    }

    /// Which of the four input lines this button pulls low.
    pub fn line(self) -> (r: u8)
        ensures
            r == self.line_spec(),
    {
        match self {
            Button::Right | Button::A => 0,
            Button::Left | Button::B => 1,
            Button::Up | Button::Select => 2,
            Button::Down | Button::Start => 3,
        }
    }

    pub fn is_direction(self) -> (r: bool)
        ensures
            r == self.is_direction_spec(),
    {
        matches!(self, Button::Right | Button::Left | Button::Up | Button::Down)
    }
}

pub struct Joypad {
    /// Currently held buttons, as a bitmask. Directions in the low nibble, actions
    /// in the high nibble. Stored non-inverted: a set bit means held.
    pub pressed: u8,
    /// The last value written to the select bits (P15/P14), kept as written.
    pub select: u8,
}

impl Joypad {
    /// What P1 reads: the selected groups' lines, low where a button is held, the
    /// select bits as written, and the unimplemented top bits high.
    pub open spec fn read_spec(self) -> u8 {
        let directions = if self.select & 0x10 == 0 {
            self.pressed & 0x0F
        } else {
            0
        };
        let actions = if self.select & 0x20 == 0 {
            (self.pressed >> 4) & 0x0F
        } else {
            0
        };
        0xC0 | self.select | (0x0F & !directions & !actions)
    }

    pub open spec fn press_spec(self, button: Button, interrupts: InterruptState) -> (Joypad, InterruptState) {
        let held = self.pressed & button.mask_spec() != 0;
        (
            Joypad { pressed: self.pressed | button.mask_spec(), ..self },
            if held {
                interrupts
            } else {
                interrupts.request_spec(Interrupt::Joypad)
            },
        )
    }

    pub open spec fn release_spec(self, button: Button) -> Joypad {
        Joypad { pressed: self.pressed & !button.mask_spec(), ..self }
    }

    pub open spec fn initial() -> Joypad {
        Joypad { pressed: 0, select: 0x30 }
    }

    pub fn new() -> (r: Self)
        ensures
            r == Self::initial(),
    {
        Joypad {
            pressed: 0,
            // Nothing selected: both select bits high.
            select: 0x30,
        }
    }

    fn mask(button: Button) -> (r: u8)
        ensures
            r == button.mask_spec(),
    {
        let shift: u8 = if button.is_direction() {
            0
        } else {
            4
        };
        let line = button.line();
        let r: u8 = 1u8 << (line + shift);
        assert(line < 4 && (shift == 0 || shift == 4) ==> (1u8 << (line + shift) == if shift == 0 {
            if line == 0 { 1u8 } else if line == 1 { 2u8 } else if line == 2 { 4u8 } else { 8u8 }
        } else {
            if line == 0 { 0x10u8 } else if line == 1 { 0x20u8 } else if line == 2 { 0x40u8 } else { 0x80u8 }
        })) by (bit_vector);
        r
    }

    /// Records a button going down, raising the joypad interrupt.
    ///
    /// The interrupt fires on a press (a line going high-to-low), not a release.
    /// Its only real use is waking the CPU from STOP, since games poll P1 rather
    /// than relying on it.
    pub fn press(&mut self, button: Button, interrupts: &mut InterruptState)
        ensures
            (*final(self), *final(interrupts)) == old(self).press_spec(button, *old(interrupts)),
    {
        let mask = Self::mask(button);
        let was_pressed = self.pressed & mask != 0;
        self.pressed = self.pressed | mask;
        if !was_pressed {
            interrupts.request(Interrupt::Joypad);
        }
    }

    pub fn release(&mut self, button: Button)
        ensures
            *final(self) == old(self).release_spec(button),
    {
        self.pressed = self.pressed & !Self::mask(button);
    }

    /// Reads P1.
    ///
    /// Returns the selected group's state in the low nibble, inverted so a held
    /// button reads 0. Bits 6-7 are unimplemented and read as 1.
    pub fn read(&self) -> (r: u8)
        ensures
            r == self.read_spec(),
    {
        // A group is selected when its bit was written *low*.
        let directions: u8 = if self.select & 0x10 == 0 {
            self.pressed & 0x0F
        } else {
            0
        };
        let actions: u8 = if self.select & 0x20 == 0 {
            (self.pressed >> 4) & 0x0F
        } else {
            0
        };
        0xC0 | self.select | (0x0F & !directions & !actions)
    }

    /// Writes P1. Only the two select bits are writable.
    pub fn write(&mut self, value: u8)
        ensures
            final(self).select == value & 0x30,
            final(self).pressed == old(self).pressed,
    {
        self.select = value & 0x30;
    }
}

impl Default for Joypad {
    fn default() -> (r: Self)
        ensures
            r == Joypad::initial(),
    {
        Self::new()
    }
}

/// With its group selected, a held button reads low on its line and a released one
/// reads high; with its group unselected the line reads high unless the other
/// selected group holds a button on the same line. The select bits read back as
/// written and the top two bits always read high.
pub proof fn lemma_read_reflects_buttons(pad: Joypad, button: Button)
    requires
        pad.select & 0xCF == 0,
    ensures
        ({
            let line_mask: u8 = (1u8 << button.line_spec()) as u8;
            let held = pad.pressed & button.mask_spec() != 0;
            let selected = if button.is_direction_spec() {
                pad.select & 0x10 == 0
            } else {
                pad.select & 0x20 == 0
            };
            (selected && held ==> pad.read_spec() & line_mask == 0) && (pad.read_spec() & line_mask
                == 0 ==> (held && selected) || pad.pressed & (if button.is_direction_spec() {
                button.mask_spec() << 4
            } else {
                button.mask_spec() >> 4
            }) as u8 != 0)
        }),
        pad.read_spec() & 0x30 == pad.select,
        pad.read_spec() & 0xC0 == 0xC0,
{
    let p = pad.pressed;
    let s = pad.select;
    let line = button.line_spec();
    let r = pad.read_spec();
    assert(1u8 << 0u8 == 1u8 && 1u8 << 1u8 == 2u8 && 1u8 << 2u8 == 4u8 && 1u8 << 3u8 == 8u8
        && (1u8 << 0u8) << 4u8 == 0x10u8 && (1u8 << 1u8) << 4u8 == 0x20u8 && (1u8 << 2u8) << 4u8
        == 0x40u8 && (1u8 << 3u8) << 4u8 == 0x80u8 && 0x10u8 >> 4u8 == 1u8 && 0x20u8 >> 4u8 == 2u8
        && 0x40u8 >> 4u8 == 4u8 && 0x80u8 >> 4u8 == 8u8 && 1u8 << 4u8 == 0x10u8 && 2u8 << 4u8
        == 0x20u8 && 4u8 << 4u8 == 0x40u8 && 8u8 << 4u8 == 0x80u8) by (bit_vector);
    assert(line < 4);
    assert(s & 0xCF == 0 && line < 4 && r == 0xC0 | s | (0x0F & !(if s & 0x10 == 0 { p & 0x0F } else { 0u8 }) & !(if s & 0x20 == 0 { (p >> 4u8) & 0x0F } else { 0u8 })) ==> (
        r & 0x30 == s
        && r & 0xC0 == 0xC0
        && (s & 0x10 == 0 && p & (1u8 << line) != 0 ==> r & (1u8 << line) == 0)
        && (s & 0x20 == 0 && p & ((1u8 << line) << 4u8) != 0 ==> r & (1u8 << line) == 0)
        && (r & (1u8 << line) == 0 ==> (s & 0x10 == 0 && p & (1u8 << line) != 0) || (s & 0x20 == 0 && p & ((1u8 << line) << 4u8) != 0)))) by (bit_vector);
}

/// Pressing a button and releasing it again leaves the held set as it was, as long as
/// the button was not already held.
pub proof fn lemma_press_then_release(pad: Joypad, button: Button, interrupts: InterruptState)
    requires
        pad.pressed & button.mask_spec() == 0,
    ensures
        pad.press_spec(button, interrupts).0.release_spec(button) == pad,
        pad.press_spec(button, interrupts).1 == interrupts.request_spec(Interrupt::Joypad),
{
    let p = pad.pressed;
    let m = button.mask_spec();
    assert(p & m == 0 ==> (p | m) & !m == p) by (bit_vector);
}

/// A press raises the joypad interrupt once: pressing a button that is already held
/// requests nothing and changes nothing.
pub proof fn lemma_a_press_interrupts_once(pad: Joypad, button: Button, interrupts: InterruptState)
    ensures
        ({
            let (held, requested) = pad.press_spec(button, interrupts);
            let (again, requested_again) = held.press_spec(button, requested);
            &&& again == held
            &&& requested_again == requested
        }),
{
    let pressed = pad.pressed;
    let mask = button.mask_spec();
    assert((pressed | mask) & mask == mask && ((pressed | mask) | mask) == (pressed | mask))
        by (bit_vector);
    assert(mask != 0) by {
        assert(button.mask_spec() != 0);
    }
}

/// Only the two select bits of P1 are writable: after a write, bits 4-5 read back
/// as written, the top two bits read high, and the held buttons are as they were —
/// a write cannot press or release anything.
pub proof fn lemma_only_the_select_bits_are_writable(pad: Joypad, value: u8)
    ensures
        ({
            let after = Joypad { select: value & 0x30, ..pad };
            &&& after.read_spec() & 0x30 == value & 0x30
            &&& after.read_spec() & 0xC0 == 0xC0
            &&& after.pressed == pad.pressed
        }),
{
    let after = Joypad { select: value & 0x30, ..pad };
    let d: u8 = if after.select & 0x10 == 0 {
        after.pressed & 0x0F
    } else {
        0
    };
    let a: u8 = if after.select & 0x20 == 0 {
        (after.pressed >> 4) & 0x0F
    } else {
        0
    };
    assert(after.read_spec() == 0xC0 | (value & 0x30) | (0x0F & !d & !a));
    assert((0xC0 | (value & 0x30) | (0x0F & !d & !a)) & 0x30 == value & 0x30 && (0xC0 | (value
        & 0x30) | (0x0F & !d & !a)) & 0xC0 == 0xC0) by (bit_vector);
}

} // verus!
