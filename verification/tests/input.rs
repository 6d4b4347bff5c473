//! Keys, pad buttons and stick directions turned into actions.

use game_koi::input::{
    action_for, map_key, map_pad_button, push_axis_change, Action, ElementState, KeyCode, PadButton,
};
use game_koi::joypad::Button;

#[test]
    fn holding_a_direction_presses_once() {
        let mut held = None;
        let mut actions = Vec::new();

        push_axis_change(&mut held, Some(Button::Right), &mut actions);
        assert_eq!(actions, vec![Action::Press(Button::Right)]);

        // The stick is still deflected, but nothing has changed: no repeat press.
        actions.clear();
        push_axis_change(&mut held, Some(Button::Right), &mut actions);
        assert!(actions.is_empty());

        // Back to centre releases it.
        push_axis_change(&mut held, None, &mut actions);
        assert_eq!(actions, vec![Action::Release(Button::Right)]);
        assert_eq!(held, None);
    }

#[test]
    fn flicking_across_centre_releases_before_pressing() {
        // If the release did not come first, the joypad would see Left and Right held
        // at once — a state the physical d-pad cannot produce, and one some games
        // handle badly.
        let mut held = Some(Button::Left);
        let mut actions = Vec::new();
        push_axis_change(&mut held, Some(Button::Right), &mut actions);
        assert_eq!(
            actions,
            vec![Action::Release(Button::Left), Action::Press(Button::Right)]
        );
    }

#[test]
fn keyboard_input_key_mapping_covers_all_eight_buttons() {
    let keys = [
        KeyCode::ArrowUp,
        KeyCode::ArrowDown,
        KeyCode::ArrowLeft,
        KeyCode::ArrowRight,
        KeyCode::KeyZ,
        KeyCode::KeyX,
        KeyCode::Enter,
        KeyCode::ShiftRight,
    ];
    let mapped: Vec<Button> = keys.into_iter().filter_map(map_key).collect();
    assert_eq!(mapped.len(), 8, "every button has a key");

    // Unbound keys map to nothing rather than a default button.
    assert!(map_key(KeyCode::KeyQ).is_none());
}

#[test]
fn frontend_key_mapping_covers_all_eight_buttons() {
    let keys = [
        KeyCode::ArrowUp,
        KeyCode::ArrowDown,
        KeyCode::ArrowLeft,
        KeyCode::ArrowRight,
        KeyCode::KeyZ,
        KeyCode::KeyX,
        KeyCode::Enter,
        KeyCode::ShiftRight,
    ];
    let mapped: Vec<Button> = keys.into_iter().filter_map(map_key).collect();
    assert_eq!(mapped.len(), 8, "every button has a key");

    // Unbound keys map to nothing rather than a default button.
    assert!(map_key(KeyCode::KeyQ).is_none());
}

#[test]
fn host_controls_are_not_game_boy_buttons() {
    // Escape and P must not also reach the joypad, or pausing would press a button.
    assert!(map_key(KeyCode::Escape).is_none());
    assert!(map_key(KeyCode::KeyP).is_none());

    assert_eq!(action_for(KeyCode::Escape, ElementState::Pressed), Some(Action::Quit));
    assert_eq!(action_for(KeyCode::KeyP, ElementState::Pressed), Some(Action::TogglePause));

    // Host controls fire on the press only; the release is not a second toggle.
    assert_eq!(action_for(KeyCode::KeyP, ElementState::Released), None);
}

#[test]
fn backtick_toggles_the_overlay_on_the_press_only() {
    assert_eq!(
        action_for(KeyCode::Backquote, ElementState::Pressed),
        Some(Action::ToggleOverlay)
    );
    assert_eq!(action_for(KeyCode::Backquote, ElementState::Released), None);
    // And it must not also reach the joypad.
    assert!(map_key(KeyCode::Backquote).is_none());
}

#[test]
fn f3_steps_the_crt_effect_on_the_press_only() {
    assert_eq!(action_for(KeyCode::F3, ElementState::Pressed), Some(Action::CycleCrtMode));
    assert_eq!(action_for(KeyCode::F3, ElementState::Released), None);
    assert!(map_key(KeyCode::F3).is_none());
}

#[test]
fn buttons_report_both_edges() {
    assert_eq!(
        action_for(KeyCode::KeyZ, ElementState::Pressed),
        Some(Action::Press(Button::A))
    );
    assert_eq!(
        action_for(KeyCode::KeyZ, ElementState::Released),
        Some(Action::Release(Button::A))
    );
}

#[test]
fn pad_mapping_covers_all_eight_buttons() {
    let buttons = [
        PadButton::DPadUp,
        PadButton::DPadDown,
        PadButton::DPadLeft,
        PadButton::DPadRight,
        PadButton::East,
        PadButton::South,
        PadButton::Start,
        PadButton::Select,
    ];
    let mapped: Vec<Button> = buttons.into_iter().filter_map(map_pad_button).collect();
    assert_eq!(mapped.len(), 8, "every button has a pad binding");

    // Buttons the Game Boy does not have stay unmapped.
    assert!(map_pad_button(PadButton::LeftTrigger).is_none());
    assert!(map_pad_button(PadButton::Mode).is_none());
}

#[test]
fn keyboard_and_gamepad_agree_on_the_same_buttons() {
    assert_eq!(
        action_for(KeyCode::ArrowUp, ElementState::Pressed),
        Some(Action::Press(Button::Up))
    );
    assert_eq!(map_pad_button(PadButton::DPadUp), Some(Button::Up));
}

#[test]
fn every_button_has_one_key_and_one_pad_button() {
    let keys = [
        KeyCode::ArrowUp,
        KeyCode::ArrowDown,
        KeyCode::ArrowLeft,
        KeyCode::ArrowRight,
        KeyCode::KeyZ,
        KeyCode::KeyX,
        KeyCode::Enter,
        KeyCode::ShiftRight,
    ];
    let pads = [
        PadButton::DPadUp,
        PadButton::DPadDown,
        PadButton::DPadLeft,
        PadButton::DPadRight,
        PadButton::East,
        PadButton::South,
        PadButton::Start,
        PadButton::Select,
    ];
    for (key, pad) in keys.into_iter().zip(pads) {
        assert_eq!(map_key(key), map_pad_button(pad), "{key:?} and {pad:?} disagree");
    }
    assert_eq!(map_key(KeyCode::KeyZ), Some(Button::A));
    assert_eq!(map_pad_button(PadButton::East), Some(Button::A));
    assert_eq!(map_pad_button(PadButton::South), Some(Button::B));
    assert_eq!(action_for(KeyCode::F2, ElementState::Pressed), Some(Action::ToggleVsync));
    assert_eq!(action_for(KeyCode::Other, ElementState::Pressed), None);
}
