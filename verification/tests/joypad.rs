//! The joypad register P1.

use game_koi::interrupts::{Interrupt, InterruptState};
use game_koi::joypad::{Button, Joypad};

fn interrupts() -> InterruptState {
    InterruptState {
        enabled: 0xFF,
        ..Default::default()
    }
}

#[test]
    fn nothing_pressed_reads_all_ones() {
        let mut pad = Joypad::new();
        pad.write(0x20); // select directions: P14 low, P15 high
        assert_eq!(pad.read() & 0x0F, 0x0F, "no button pulls a line low");
    }

#[test]
    fn a_pressed_button_reads_zero() {
        let mut pad = Joypad::new();
        let mut ints = interrupts();
        pad.press(Button::Right, &mut ints);

        // Select the d-pad by writing its select bit (P14, bit 4) *low*.
        pad.write(0x20);
        assert_eq!(pad.read() & 0x01, 0, "Right pulls line 0 low");
        assert_eq!(pad.read() & 0x0E, 0x0E, "the other lines stay high");
    }

#[test]
    fn groups_are_read_separately() {
        let mut pad = Joypad::new();
        let mut ints = interrupts();
        // Right and A share line 0 but are in different groups.
        pad.press(Button::Right, &mut ints);

        pad.write(0x20); // directions selected (P14 low)
        assert_eq!(pad.read() & 0x01, 0, "Right is visible");

        pad.write(0x10); // actions selected (P15 low)
        assert_eq!(pad.read() & 0x01, 0x01, "A is not pressed");

        pad.press(Button::A, &mut ints);
        assert_eq!(pad.read() & 0x01, 0, "now A is visible");
    }

#[test]
    fn selecting_neither_group_reads_all_high() {
        let mut pad = Joypad::new();
        let mut ints = interrupts();
        pad.press(Button::Start, &mut ints);
        pad.write(0x30); // both select bits high: nothing selected
        assert_eq!(pad.read() & 0x0F, 0x0F);
    }

#[test]
    fn selecting_both_groups_merges_them() {
        // Writing both bits low selects both groups at once; the lines are ANDed,
        // so a button in either group pulls its line low.
        let mut pad = Joypad::new();
        let mut ints = interrupts();
        pad.press(Button::Down, &mut ints); // line 3, directions
        pad.press(Button::A, &mut ints); // line 0, actions

        pad.write(0x00);
        assert_eq!(pad.read() & 0x08, 0, "Down still reads");
        assert_eq!(pad.read() & 0x01, 0, "A also reads");
    }

#[test]
    fn releasing_restores_the_line() {
        let mut pad = Joypad::new();
        let mut ints = interrupts();
        pad.write(0x20);
        pad.press(Button::Up, &mut ints);
        assert_eq!(pad.read() & 0x04, 0);
        pad.release(Button::Up);
        assert_eq!(pad.read() & 0x04, 0x04);
    }

#[test]
    fn pressing_raises_an_interrupt_once() {
        let mut pad = Joypad::new();
        let mut ints = interrupts();

        pad.press(Button::B, &mut ints);
        assert_eq!(ints.pending(), Some(Interrupt::Joypad));

        // Holding it does not re-raise.
        ints.acknowledge(Interrupt::Joypad);
        pad.press(Button::B, &mut ints);
        assert_eq!(ints.pending(), None, "still held, no new edge");

        // Releasing and pressing again does.
        pad.release(Button::B);
        pad.press(Button::B, &mut ints);
        assert_eq!(ints.pending(), Some(Interrupt::Joypad));
    }

#[test]
    fn select_bits_are_readable_but_inputs_are_not_writable() {
        let mut pad = Joypad::new();
        let mut ints = interrupts();
        pad.press(Button::Start, &mut ints);

        // Writing to the input bits must not clear the pressed state.
        // 0x1F selects the action group (P15 low) and sets every input bit.
        pad.write(0x1F);
        assert_eq!(pad.read() & 0x30, 0x10, "only the select bits stored");
        assert_eq!(pad.read() & 0x08, 0, "Start is still held");
        // The unimplemented top bits always read high.
        assert_eq!(pad.read() & 0xC0, 0xC0);
    }

#[test]
    fn a_program_can_read_a_held_button() {
        let mut pad = Joypad::new();
        let mut ints = interrupts();
        pad.press(Button::Start, &mut ints);

        // Games write 0x20 to select actions (P15 low), then read P1. Hardware
        // needs a couple of cycles for the lines to settle; we are instantaneous.
        pad.write(0x10);
        let p1 = pad.read();

        // Start is line 3 of the action group.
        assert_eq!(p1 & 0x08, 0, "Start reads low while held");
        assert_eq!(p1 & 0x07, 0x07, "the other action buttons read high");
    }
