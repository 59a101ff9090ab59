use luxlib::input::{Input, KeyInput, MouseInput};

#[test]
fn new_input_has_nothing_down() {
    let input = Input::new();
    assert!(!input.is_key_pressed(KeyInput::A));
    assert!(input.is_key_released(KeyInput::A));
    assert!(!input.is_key_just_pressed(KeyInput::A));
    assert!(!input.is_key_just_released(KeyInput::A));
    assert!(!input.is_mouse_pressed(MouseInput::Left));
    assert!(input.is_mouse_released(MouseInput::Left));
}

#[test]
fn default_input_equals_new() {
    let input = Input::default();
    assert!(input.is_key_released(KeyInput::Space));
    assert!(input.is_mouse_released(MouseInput::Right));
}

#[test]
fn key_press_hold_release_cycle() {
    let mut input = Input::new();
    input.handle_keyboard_input(Some(KeyInput::W), true);
    assert!(input.is_key_just_pressed(KeyInput::W));
    assert!(input.is_key_pressed(KeyInput::W));
    assert!(!input.is_key_released(KeyInput::W));

    input.advance();
    assert!(!input.is_key_just_pressed(KeyInput::W));
    assert!(input.is_key_pressed(KeyInput::W));

    input.handle_keyboard_input(Some(KeyInput::W), false);
    assert!(input.is_key_just_released(KeyInput::W));
    assert!(input.is_key_released(KeyInput::W));
    assert!(!input.is_key_pressed(KeyInput::W));

    input.advance();
    assert!(!input.is_key_just_released(KeyInput::W));
    assert!(input.is_key_released(KeyInput::W));
}

#[test]
fn release_in_same_frame_as_press_is_ignored() {
    let mut input = Input::new();
    input.handle_keyboard_input(Some(KeyInput::Space), true);
    input.handle_keyboard_input(Some(KeyInput::Space), false);
    assert!(input.is_key_just_pressed(KeyInput::Space));
    assert!(!input.is_key_just_released(KeyInput::Space));
    input.advance();
    assert!(input.is_key_pressed(KeyInput::Space));
}

#[test]
fn repeated_press_is_ignored() {
    let mut input = Input::new();
    input.handle_keyboard_input(Some(KeyInput::Digit1), true);
    input.handle_keyboard_input(Some(KeyInput::Digit1), true);
    input.advance();
    input.handle_keyboard_input(Some(KeyInput::Digit1), true);
    assert!(!input.is_key_just_pressed(KeyInput::Digit1));
    input.handle_keyboard_input(Some(KeyInput::Digit1), false);
    assert!(input.is_key_released(KeyInput::Digit1));
    assert!(input.is_key_just_released(KeyInput::Digit1));
}

#[test]
fn release_of_key_never_pressed_is_ignored() {
    let mut input = Input::new();
    input.handle_keyboard_input(Some(KeyInput::Q), false);
    assert!(!input.is_key_just_released(KeyInput::Q));
}

#[test]
fn untracked_key_is_ignored() {
    let mut input = Input::new();
    input.handle_keyboard_input(None, true);
    assert!(!input.is_key_pressed(KeyInput::Unknown));
    assert!(!input.is_key_pressed(KeyInput::A));
}

#[test]
fn keys_are_independent() {
    let mut input = Input::new();
    input.handle_keyboard_input(Some(KeyInput::A), true);
    input.handle_keyboard_input(Some(KeyInput::B), true);
    input.advance();
    input.handle_keyboard_input(Some(KeyInput::A), false);
    assert!(input.is_key_released(KeyInput::A));
    assert!(input.is_key_pressed(KeyInput::B));
    assert!(!input.is_key_just_released(KeyInput::B));
}

#[test]
fn key_released_and_pressed_again_in_one_frame() {
    let mut input = Input::new();
    input.handle_keyboard_input(Some(KeyInput::Enter), true);
    input.advance();
    input.handle_keyboard_input(Some(KeyInput::Enter), false);
    input.handle_keyboard_input(Some(KeyInput::Enter), true);
    assert!(input.is_key_just_released(KeyInput::Enter));
    assert!(input.is_key_just_pressed(KeyInput::Enter));
    assert!(input.is_key_pressed(KeyInput::Enter));
    input.advance();
    assert!(input.is_key_pressed(KeyInput::Enter));
    assert!(!input.is_key_just_released(KeyInput::Enter));
}

#[test]
fn mouse_press_hold_release_cycle() {
    let mut input = Input::new();
    input.handle_mouse_input(true, Some(MouseInput::Left));
    assert!(input.is_mouse_just_pressed(MouseInput::Left));
    assert!(input.is_mouse_pressed(MouseInput::Left));
    assert!(!input.is_mouse_pressed(MouseInput::Right));
    input.advance();
    assert!(!input.is_mouse_just_pressed(MouseInput::Left));
    assert!(input.is_mouse_pressed(MouseInput::Left));
    input.handle_mouse_input(false, Some(MouseInput::Left));
    assert!(input.is_mouse_just_released(MouseInput::Left));
    assert!(input.is_mouse_released(MouseInput::Left));
    input.advance();
    assert!(!input.is_mouse_just_released(MouseInput::Left));
}

#[test]
fn untracked_mouse_button_is_ignored() {
    let mut input = Input::new();
    input.handle_mouse_input(true, None);
    for b in [MouseInput::Left, MouseInput::Right, MouseInput::Middle, MouseInput::Back, MouseInput::Forward] {
        assert!(!input.is_mouse_pressed(b));
    }
}

#[test]
fn keys_and_mouse_do_not_mix() {
    let mut input = Input::new();
    input.handle_mouse_input(true, Some(MouseInput::Left));
    assert!(!input.is_key_pressed(KeyInput::Left));
    input.handle_keyboard_input(Some(KeyInput::Right), true);
    assert!(!input.is_mouse_pressed(MouseInput::Right));
}
