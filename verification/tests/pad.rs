//! Pad events turned into joypad edges.

use game_koi::input::{Action, AxisPosition, PadAxis, PadButton, PadEvent, PadState};
use game_koi::joypad::Button;

fn feed(pad: &mut PadState, events: &[PadEvent]) -> Vec<Action> {
    let mut actions = Vec::new();
    for &event in events {
        pad.event(event, &mut actions);
    }
    actions
}

#[test]
fn pad_buttons_report_both_edges_and_unbound_ones_nothing() {
    let mut pad = PadState::new();
    let actions = feed(
        &mut pad,
        &[
            PadEvent::ButtonPressed(PadButton::South),
            PadEvent::ButtonReleased(PadButton::South),
            PadEvent::ButtonPressed(PadButton::Mode),
        ],
    );
    assert_eq!(actions, vec![Action::Press(Button::B), Action::Release(Button::B)]);
}

#[test]
fn a_held_stick_presses_once_and_a_flick_releases_first() {
    let mut pad = PadState::new();
    let actions = feed(
        &mut pad,
        &[
            PadEvent::AxisMoved(PadAxis::LeftStickX, AxisPosition::Negative),
            PadEvent::AxisMoved(PadAxis::LeftStickX, AxisPosition::Negative),
            PadEvent::AxisMoved(PadAxis::LeftStickX, AxisPosition::Positive),
            PadEvent::AxisMoved(PadAxis::LeftStickX, AxisPosition::Centre),
        ],
    );
    assert_eq!(
        actions,
        vec![
            Action::Press(Button::Left),
            Action::Release(Button::Left),
            Action::Press(Button::Right),
            Action::Release(Button::Right),
        ]
    );
}

#[test]
fn y_axes_steer_up_and_down_and_each_axis_is_held_apart() {
    let mut pad = PadState::new();
    let actions = feed(
        &mut pad,
        &[
            PadEvent::AxisMoved(PadAxis::DPadY, AxisPosition::Positive),
            PadEvent::AxisMoved(PadAxis::LeftStickY, AxisPosition::Negative),
        ],
    );
    assert_eq!(actions, vec![Action::Press(Button::Up), Action::Press(Button::Down)]);
    assert_eq!(pad.hat_y, Some(Button::Up));
    assert_eq!(pad.stick_y, Some(Button::Down));
    assert_eq!(pad.stick_x, None);
}
