use game_core::controls::{get_control_acc, ButtonState, JoystickState, PlayerInput};
use game_core::protocol::{AxisValue, ButtonType, JoystickAxis};

#[test]
fn new_button_is_idle() {
    let mut b = ButtonState::new();
    assert!(!b.is_pressed());
    assert!(!b.just_pressed());
    assert!(!b.just_released());
}

#[test]
fn pressed_tracks_last_update() {
    let mut b = ButtonState::new();
    for &(updates, expect) in &[(true, true), (true, true), (false, false), (true, true), (false, false)] {
        b.update(updates);
        assert_eq!(b.is_pressed(), expect);
    }
}

#[test]
fn rising_edge_reported_at_most_once() {
    let mut b = ButtonState::new();
    b.update(true);
    assert!(b.just_pressed());
    // still held: the consumed latch must not re-arm, however often the
    // press repeats
    b.update(true);
    b.update(true);
    b.update(true);
    assert!(!b.just_pressed());
    // a genuine new edge after a release is reported again
    b.update(false);
    b.update(true);
    assert!(b.just_pressed());
    assert!(!b.just_pressed());
}

#[test]
fn repeated_press_keeps_unconsumed_latch() {
    let mut b = ButtonState::new();
    b.update(true);
    b.update(true);
    b.update(true);
    // nothing consumed the latch yet, so the edge is still there
    assert!(b.just_pressed());
    assert!(!b.just_pressed());
}

#[test]
fn falling_edge_reported_at_most_once() {
    let mut b = ButtonState::new();
    b.update(true);
    b.update(false);
    assert!(b.just_released());
    b.update(false);
    b.update(false);
    assert!(!b.just_released());
}

#[test]
fn latch_reads_false_while_condition_gone() {
    let mut b = ButtonState::new();
    b.update(true);
    b.update(false);
    // the press latch was overridden by the release
    assert!(!b.just_pressed());
    // ... and the release latch is live
    assert!(b.just_released());
}

#[test]
fn joystick_is_last_write_wins() {
    let mut j = JoystickState::new();
    assert_eq!(j.get().millis(), 0);
    j.update(AxisValue::new(420).unwrap());
    j.update(AxisValue::new(-1000).unwrap());
    assert_eq!(j.get().millis(), -1000);
}

#[test]
fn player_input_tracks_buttons_independently() {
    let mut pi = PlayerInput::new();
    assert!(!pi.is_pressed(ButtonType::A));
    pi.update_button(ButtonType::A, true);
    pi.update_button(ButtonType::Up, true);
    pi.update_button(ButtonType::Up, false);
    assert!(pi.is_pressed(ButtonType::A));
    assert!(!pi.is_pressed(ButtonType::Up));
    assert!(!pi.is_pressed(ButtonType::B));
}

#[test]
fn player_input_tracks_axes_independently() {
    let mut pi = PlayerInput::new();
    pi.update_joystick(JoystickAxis::LeftX, AxisValue::new(500).unwrap());
    pi.update_joystick(JoystickAxis::RightY, AxisValue::new(-250).unwrap());
    assert_eq!(pi.left_x.value.millis, 500);
    assert_eq!(pi.right_y.value.millis, -250);
    assert_eq!(pi.left_y.value.millis, 0);
}

#[test]
fn control_output_from_direction_buttons() {
    let mut pi = PlayerInput::new();
    let co = get_control_acc(&pi, 300, 70);
    assert_eq!(co.acceleration, 0);
    assert_eq!(co.turn, 0);

    pi.update_button(ButtonType::Up, true);
    pi.update_button(ButtonType::Right, true);
    let co = get_control_acc(&pi, 300, 70);
    assert_eq!(co.acceleration, 300);
    assert_eq!(co.turn, -70);

    pi.update_button(ButtonType::Down, true);
    pi.update_button(ButtonType::Left, true);
    // opposite directions cancel
    let co = get_control_acc(&pi, 300, 70);
    assert_eq!(co.acceleration, 0);
    assert_eq!(co.turn, 0);
}
