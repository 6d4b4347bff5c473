//! Turning input devices into [`Action`]s.
//!
//! The keyboard and the gamepad each translate their own hardware into the same
//! vocabulary, which is what keeps the two interchangeable: a d-pad press and an
//! arrow key are indistinguishable by the time they reach the joypad.
//!
//! Keys are named by position, as the UI Events `code` names them ("ArrowUp",
//! "KeyZ", "Backquote"), so the bindings follow where a key sits on the board rather
//! than what a layout prints on it. Pad buttons are named by position too: South,
//! East and so on.
//!
//! A keyboard key or a gamepad button is already a switch, but an analog stick reports
//! a continuous position. The frontend thresholds it and remembers which direction each
//! axis is currently holding; [`push_axis_change`] turns a change of that direction
//! into the press and release edges the joypad expects.
use vstd::prelude::*;
use crate::joypad::Button;

verus! {

/// What an input device is asking the frontend to do.
///
/// Presses and releases are separate variants rather than a `(Button, bool)` pair
/// because the joypad's press path also has to raise an interrupt.
#[derive(Debug, Clone, Copy, PartialEq, Eq, Structural)]
pub enum Action {
    Press(Button),
    Release(Button),
    /// Host-side controls. Not buttons the DMG had, so the emulated machine never
    /// learns these happened.
    TogglePause,
    ToggleOverlay,
    ToggleVsync,
    CycleCrtMode,
    Quit,
}

/// A physical key, named by its position on the board.
#[derive(Debug, Clone, Copy, PartialEq, Eq, Structural)]
pub enum KeyCode {
    ArrowUp,
    ArrowDown,
    ArrowLeft,
    ArrowRight,
    Enter,
    Escape,
    Space,
    Tab,
    Backspace,
    Backquote,
    ShiftLeft,
    ShiftRight,
    ControlLeft,
    ControlRight,
    AltLeft,
    AltRight,
    KeyA,
    KeyB,
    KeyC,
    KeyD,
    KeyE,
    KeyF,
    KeyG,
    KeyH,
    KeyI,
    KeyJ,
    KeyK,
    KeyL,
    KeyM,
    KeyN,
    KeyO,
    KeyP,
    KeyQ,
    KeyR,
    KeyS,
    KeyT,
    KeyU,
    KeyV,
    KeyW,
    KeyX,
    KeyY,
    KeyZ,
    Digit0,
    Digit1,
    Digit2,
    Digit3,
    Digit4,
    Digit5,
    Digit6,
    Digit7,
    Digit8,
    Digit9,
    F1,
    F2,
    F3,
    F4,
    F5,
    F6,
    F7,
    F8,
    F9,
    F10,
    F11,
    F12,
    /// Any key not listed above.
    Other,
}

/// Whether a key went down or came up.
#[derive(Debug, Clone, Copy, PartialEq, Eq, Structural)]
pub enum ElementState {
    Pressed,
    Released,
}

/// A gamepad button, named by its position on a standard pad.
#[derive(Debug, Clone, Copy, PartialEq, Eq, Structural)]
pub enum PadButton {
    South,
    East,
    North,
    West,
    C,
    Z,
    LeftTrigger,
    LeftTrigger2,
    RightTrigger,
    RightTrigger2,
    Select,
    Start,
    Mode,
    LeftThumb,
    RightThumb,
    DPadUp,
    DPadDown,
    DPadLeft,
    DPadRight,
    Unknown,
}

/// The Game Boy button a key is bound to.
///
/// The d-pad on the arrows and A/B on Z/X is the layout every emulator uses, so muscle
/// memory carries over.
pub open spec fn key_button(key: KeyCode) -> Option<Button> {
    match key {
        KeyCode::ArrowUp => Some(Button::Up),
        KeyCode::ArrowDown => Some(Button::Down),
        KeyCode::ArrowLeft => Some(Button::Left),
        KeyCode::ArrowRight => Some(Button::Right),
        KeyCode::KeyZ => Some(Button::A),
        KeyCode::KeyX => Some(Button::B),
        KeyCode::Enter => Some(Button::Start),
        KeyCode::ShiftRight => Some(Button::Select),
        _ => None,
    }
}

/// The host-side control a key is bound to: Escape, P, the backtick, F2 and F3.
pub open spec fn host_control(key: KeyCode) -> Option<Action> {
    match key {
        KeyCode::Escape => Some(Action::Quit),
        KeyCode::KeyP => Some(Action::TogglePause),
        KeyCode::Backquote => Some(Action::ToggleOverlay),
        KeyCode::F2 => Some(Action::ToggleVsync),
        KeyCode::F3 => Some(Action::CycleCrtMode),
        _ => None,
    }
}

/// What a key event asks for: a host control on the press only, otherwise the bound
/// button's press or release.
pub open spec fn key_action(key: KeyCode, state: ElementState) -> Option<Action> {
    if state == ElementState::Pressed && host_control(key) is Some {
        host_control(key)
    } else {
        match key_button(key) {
            Some(b) => Some(
                match state {
                    ElementState::Pressed => Action::Press(b),
                    ElementState::Released => Action::Release(b),
                },
            ),
            None => None,
        }
    }
}

/// The Game Boy button a pad button is bound to.
///
/// A and B sit on a diagonal on the DMG, B lower-left and A upper-right, so mapping
/// them to the East and South face buttons reproduces that under the thumb.
pub open spec fn pad_button(button: PadButton) -> Option<Button> {
    match button {
        PadButton::DPadUp => Some(Button::Up),
        PadButton::DPadDown => Some(Button::Down),
        PadButton::DPadLeft => Some(Button::Left),
        PadButton::DPadRight => Some(Button::Right),
        PadButton::East => Some(Button::A),
        PadButton::South => Some(Button::B),
        PadButton::Start => Some(Button::Start),
        PadButton::Select => Some(Button::Select),
        _ => None,
    }
}

/// Maps a key to a Game Boy button.
pub fn map_key(key: KeyCode) -> (r: Option<Button>)
    ensures
        r == key_button(key),
{
    match key {
        KeyCode::ArrowUp => Some(Button::Up),
        KeyCode::ArrowDown => Some(Button::Down),
        KeyCode::ArrowLeft => Some(Button::Left),
        KeyCode::ArrowRight => Some(Button::Right),
        KeyCode::KeyZ => Some(Button::A),
        KeyCode::KeyX => Some(Button::B),
        KeyCode::Enter => Some(Button::Start),
        KeyCode::ShiftRight => Some(Button::Select),
        _ => None,
    }
}

/// Turns a key event into the action it should trigger, if any.
///
/// Escape, P, the backtick, F2 and F3 are host-side controls: the emulated machine
/// never sees them, because the DMG had no such buttons. Everything else falls through
/// to [`map_key`].
pub fn action_for(key: KeyCode, state: ElementState) -> (r: Option<Action>)
    ensures
        r == key_action(key, state),
{
    if state == ElementState::Pressed {
        match key {
            KeyCode::Escape => return Some(Action::Quit),
            KeyCode::KeyP => return Some(Action::TogglePause),
            KeyCode::Backquote => return Some(Action::ToggleOverlay),
            KeyCode::F2 => return Some(Action::ToggleVsync),
            KeyCode::F3 => return Some(Action::CycleCrtMode),
            _ => {},
        }
    }
    match map_key(key) {
        Some(button) => Some(
            match state {
                ElementState::Pressed => Action::Press(button),
                ElementState::Released => Action::Release(button),
            },
        ),
        None => None,
    }
}

/// Maps a physical gamepad button to a Game Boy one.
pub fn map_pad_button(button: PadButton) -> (r: Option<Button>)
    ensures
        r == pad_button(button),
{
    match button {
        PadButton::DPadUp => Some(Button::Up),
        PadButton::DPadDown => Some(Button::Down),
        PadButton::DPadLeft => Some(Button::Left),
        PadButton::DPadRight => Some(Button::Right),
        PadButton::East => Some(Button::A),
        PadButton::South => Some(Button::B),
        PadButton::Start => Some(Button::Start),
        PadButton::Select => Some(Button::Select),
        _ => None,
    }
}

/// The key bound to each Game Boy button.
pub open spec fn key_for(button: Button) -> KeyCode {
    match button {
        Button::Up => KeyCode::ArrowUp,
        Button::Down => KeyCode::ArrowDown,
        Button::Left => KeyCode::ArrowLeft,
        Button::Right => KeyCode::ArrowRight,
        Button::A => KeyCode::KeyZ,
        Button::B => KeyCode::KeyX,
        Button::Start => KeyCode::Enter,
        Button::Select => KeyCode::ShiftRight,
    }
}

/// The pad button bound to each Game Boy button.
pub open spec fn pad_button_for(button: Button) -> PadButton {
    match button {
        Button::Up => PadButton::DPadUp,
        Button::Down => PadButton::DPadDown,
        Button::Left => PadButton::DPadLeft,
        Button::Right => PadButton::DPadRight,
        Button::A => PadButton::East,
        Button::B => PadButton::South,
        Button::Start => PadButton::Start,
        Button::Select => PadButton::Select,
    }
}

/// Every Game Boy button has exactly one key and exactly one pad button, and the
/// keyboard and the pad press the same button with the same action.
pub proof fn lemma_bindings_cover_every_button(button: Button, key: KeyCode, pad: PadButton)
    ensures
        key_button(key_for(button)) == Some(button),
        pad_button(pad_button_for(button)) == Some(button),
        key_button(key) == Some(button) ==> key == key_for(button),
        pad_button(pad) == Some(button) ==> pad == pad_button_for(button),
        key_action(key_for(button), ElementState::Pressed) == Some(Action::Press(button)),
{
}

/// Host controls never reach the joypad, and fire on the press only: a release of a
/// host-control key does nothing at all.
pub proof fn lemma_host_controls_are_not_buttons(key: KeyCode)
    ensures
        host_control(key) is Some ==> key_button(key) is None,
        host_control(key) is Some ==> key_action(key, ElementState::Released) is None,
        host_control(key) is Some ==> key_action(key, ElementState::Pressed) == host_control(key),
{
}

/// A bound key reports both edges: its press presses the button and its release
/// releases it.
pub proof fn lemma_buttons_report_both_edges(key: KeyCode, button: Button)
    requires
        key_button(key) == Some(button),
    ensures
        key_action(key, ElementState::Pressed) == Some(Action::Press(button)),
        key_action(key, ElementState::Released) == Some(Action::Release(button)),
{
}

/// The edges an axis moving from `held` to `next` produces: nothing if it did not
/// move; otherwise the release of the old direction, then the press of the new one.
pub open spec fn axis_edges(held: Option<Button>, next: Option<Button>) -> Seq<Action> {
    if held == next {
        Seq::empty()
    } else {
        let release = match held {
            Some(previous) => seq![Action::Release(previous)],
            None => Seq::empty(),
        };
        let press = match next {
            Some(button) => seq![Action::Press(button)],
            None => Seq::empty(),
        };
        release + press
    }
}

/// Records an axis moving to a new direction, emitting the press/release edges.
///
/// Nothing is emitted while the direction is unchanged, which is what makes a held
/// stick behave like a held switch.
pub fn push_axis_change(held: &mut Option<Button>, next: Option<Button>, actions: &mut Vec<Action>)
    ensures
        *final(held) == next,
        final(actions)@ == old(actions)@ + axis_edges(*old(held), next),
{
    let same = match (*held, next) {
        (Some(a), Some(b)) => a == b,
        (None, None) => true,
        _ => false,
    };
    if same {
        proof {
            assert(old(actions)@ + axis_edges(*old(held), next) =~= old(actions)@);
        }
        return;
    }
    // Release first: moving from Left straight to Right must not leave Left stuck.
    if let Some(previous) = *held {
        actions.push(Action::Release(previous));
    }
    if let Some(button) = next {
        actions.push(Action::Press(button));
    }
    *held = next;
    proof {
        assert(actions@ =~= old(actions)@ + axis_edges(*old(held), next));
    }
}

/// A direction is never pressed twice in a row without a release between: feeding an
/// axis the direction it already holds emits nothing, and moving it releases before
/// pressing.
pub proof fn lemma_axis_edges_alternate(held: Option<Button>, next: Option<Button>)
    ensures
        held == next ==> axis_edges(held, next).len() == 0,
        held != next && held is Some && next is Some ==> axis_edges(held, next) == seq![
            Action::Release(held.unwrap()),
            Action::Press(next.unwrap()),
        ],
{
    if held != next && held is Some && next is Some {
        assert(axis_edges(held, next) =~= seq![
            Action::Release(held.unwrap()),
            Action::Press(next.unwrap()),
        ]);
    }
}

/// An analog or hat axis of a pad that can steer the d-pad.
#[derive(Debug, Clone, Copy, PartialEq, Eq, Structural)]
pub enum PadAxis {
    LeftStickX,
    LeftStickY,
    DPadX,
    DPadY,
}

/// Where an axis sits, once its position has been read against the dead zone.
#[derive(Debug, Clone, Copy, PartialEq, Eq, Structural)]
pub enum AxisPosition {
    /// Pushed far enough towards the negative end: left, or down.
    Negative,
    /// Within the dead zone.
    Centre,
    /// Pushed far enough towards the positive end: right, or up.
    Positive,
}

/// One event from a pad.
#[derive(Debug, Clone, Copy, PartialEq, Eq, Structural)]
pub enum PadEvent {
    ButtonPressed(PadButton),
    ButtonReleased(PadButton),
    AxisMoved(PadAxis, AxisPosition),
}

/// The direction an axis holds at a position: the X axes steer left and right, the
/// Y axes down and up (positive is up, as on the stick).
pub open spec fn axis_button(axis: PadAxis, position: AxisPosition) -> Option<Button> {
    let horizontal = axis == PadAxis::LeftStickX || axis == PadAxis::DPadX;
    match position {
        AxisPosition::Centre => None,
        AxisPosition::Negative => Some(if horizontal { Button::Left } else { Button::Down }),
        AxisPosition::Positive => Some(if horizontal { Button::Right } else { Button::Up }),
    }
}

/// The direction each axis currently holds, so that a held stick presses once.
#[derive(Debug, Clone, Copy, PartialEq, Eq, Structural)]
pub struct PadState {
    pub stick_x: Option<Button>,
    pub stick_y: Option<Button>,
    pub hat_x: Option<Button>,
    pub hat_y: Option<Button>,
}

impl PadState {
    /// Nothing held.
    pub fn new() -> (r: Self)
        ensures
            r == (PadState { stick_x: None, stick_y: None, hat_x: None, hat_y: None }),
    {
        PadState { stick_x: None, stick_y: None, hat_x: None, hat_y: None }
    }

    /// The direction an axis holds.
    pub open spec fn held(self, axis: PadAxis) -> Option<Button> {
        match axis {
            PadAxis::LeftStickX => self.stick_x,
            PadAxis::LeftStickY => self.stick_y,
            PadAxis::DPadX => self.hat_x,
            PadAxis::DPadY => self.hat_y,
        }
    }

    /// The state with an axis holding `direction`.
    pub open spec fn holding(self, axis: PadAxis, direction: Option<Button>) -> PadState {
        match axis {
            PadAxis::LeftStickX => PadState { stick_x: direction, ..self },
            PadAxis::LeftStickY => PadState { stick_y: direction, ..self },
            PadAxis::DPadX => PadState { hat_x: direction, ..self },
            PadAxis::DPadY => PadState { hat_y: direction, ..self },
        }
    }

    /// What an event does: a bound button reports its edge, an unbound one nothing;
    /// an axis reports the edges of moving to its new direction, and remembers it.
    pub open spec fn event_spec(self, event: PadEvent) -> (PadState, Seq<Action>) {
        match event {
            PadEvent::ButtonPressed(b) => (self, match pad_button(b) {
                Some(button) => seq![Action::Press(button)],
                None => Seq::empty(),
            }),
            PadEvent::ButtonReleased(b) => (self, match pad_button(b) {
                Some(button) => seq![Action::Release(button)],
                None => Seq::empty(),
            }),
            PadEvent::AxisMoved(axis, position) => {
                let next = axis_button(axis, position);
                (self.holding(axis, next), axis_edges(self.held(axis), next))
            },
        }
    }

    /// Turns one pad event into the joypad edges it causes, appending them to
    /// `actions`.
    pub fn event(&mut self, event: PadEvent, actions: &mut Vec<Action>)
        ensures
            *final(self) == old(self).event_spec(event).0,
            final(actions)@ == old(actions)@ + old(self).event_spec(event).1,
    {
        match event {
            PadEvent::ButtonPressed(b) => {
                if let Some(button) = map_pad_button(b) {
                    actions.push(Action::Press(button));
                }
                proof {
                    assert(actions@ =~= old(actions)@ + old(self).event_spec(event).1);
                }
            },
            PadEvent::ButtonReleased(b) => {
                if let Some(button) = map_pad_button(b) {
                    actions.push(Action::Release(button));
                }
                proof {
                    assert(actions@ =~= old(actions)@ + old(self).event_spec(event).1);
                }
            },
            PadEvent::AxisMoved(axis, position) => {
                let horizontal = match axis {
                    PadAxis::LeftStickX | PadAxis::DPadX => true,
                    _ => false,
                };
                let next = match position {
                    AxisPosition::Centre => None,
                    AxisPosition::Negative => Some(if horizontal { Button::Left } else { Button::Down }),
                    AxisPosition::Positive => Some(if horizontal { Button::Right } else { Button::Up }),
                };
                match axis {
                    PadAxis::LeftStickX => push_axis_change(&mut self.stick_x, next, actions),
                    PadAxis::LeftStickY => push_axis_change(&mut self.stick_y, next, actions),
                    PadAxis::DPadX => push_axis_change(&mut self.hat_x, next, actions),
                    PadAxis::DPadY => push_axis_change(&mut self.hat_y, next, actions),
                }
            },
        }
    }
}

} // verus!
