//! Ingestion: the push path for window events, the poll path for drained
//! gamepad events, and the drain flag across calls.

use game_lib::input::Category;
use game_lib::input::GamepadAxis;
use game_lib::input::GamepadButton;
use game_lib::input::GamepadInput;
use game_lib::input::Input;
use game_lib::input::InputEnum;
use game_lib::input::InputState;
use game_lib::input::KeyboardButton;
use game_lib::input::MouseAxis;
use game_lib::input::MouseButton;
use game_lib::input::RecordingListener;
use game_lib::input::WindowInput;

fn st(value: f32) -> InputState {
    InputState { bits: value.to_bits() }
}

fn as_f32(state: InputState) -> f32 {
    f32::from_bits(state.bits)
}

fn no_gamepad() -> Vec<GamepadInput> {
    Vec::new()
}

#[test]
fn key_press_and_release() {
    let mut input = Input::<RecordingListener>::new();
    input.event(
        &WindowInput::Keyboard { key: KeyboardButton::KeyW, pressed: true },
        &no_gamepad(),
    );
    assert!(input.get_bool(KeyboardButton::KeyW));
    input.event(
        &WindowInput::Keyboard { key: KeyboardButton::KeyW, pressed: false },
        &no_gamepad(),
    );
    assert!(!input.get_bool(KeyboardButton::KeyW));
}

#[test]
fn mouse_click_writes_digital_state() {
    let mut input = Input::<RecordingListener>::new();
    input.event(
        &WindowInput::MouseClick { button: MouseButton::Forward, pressed: true },
        &no_gamepad(),
    );
    assert_eq!(as_f32(input.get_f32(MouseButton::Forward)), 1.0);
}

#[test]
fn wheel_delta_until_reset() {
    let mut input = Input::<RecordingListener>::new();
    input.event(&WindowInput::Wheel { dx: st(0.0), dy: st(2.5) }, &no_gamepad());
    assert_eq!(as_f32(input.get_f32(MouseAxis::WheelDeltaY)), 2.5);
    input.reset();
    assert_eq!(as_f32(input.get_f32(MouseAxis::WheelDeltaY)), 0.0);
}

#[test]
fn cursor_and_motion_are_separate_axes() {
    let mut input = Input::<RecordingListener>::new();
    input.event(&WindowInput::CursorMoved { x: st(320.0), y: st(240.0) }, &no_gamepad());
    input.event(&WindowInput::MouseMotion { dx: st(-4.0), dy: st(8.0) }, &no_gamepad());
    assert_eq!(as_f32(input.get_f32(MouseAxis::PositionX)), 320.0);
    assert_eq!(as_f32(input.get_f32(MouseAxis::PositionY)), 240.0);
    assert_eq!(as_f32(input.get_f32(MouseAxis::PositionDeltaX)), -4.0);
    assert_eq!(as_f32(input.get_f32(MouseAxis::PositionDeltaY)), 8.0);
}

#[test]
fn ignored_events_write_nothing() {
    let mut input = Input::<RecordingListener>::new();
    input.event(&WindowInput::Other, &no_gamepad());
    input.event(&WindowInput::CloseRequested, &no_gamepad());
    assert!(!input.get_bool(KeyboardButton::Escape));
    assert_eq!(as_f32(input.get_f32(MouseAxis::PositionX)), 0.0);
}

#[test]
fn key_event_notifies_keyboard_listeners() {
    let mut input = Input::<RecordingListener>::new();
    input.register_listener(Category::KeyboardButton, RecordingListener::new());
    input.event(
        &WindowInput::Keyboard { key: KeyboardButton::KeyA, pressed: true },
        &no_gamepad(),
    );
    let heard = &input.listeners_of(Category::KeyboardButton)[0].seen;
    assert_eq!(
        heard.as_slice(),
        &[(InputEnum::KeyboardButton(KeyboardButton::KeyA), st(1.0))]
    );
}

#[test]
fn wheel_event_notifies_nobody() {
    let mut input = Input::<RecordingListener>::new();
    input.register_listener(Category::MouseAxis, RecordingListener::new());
    input.event(&WindowInput::Wheel { dx: st(1.0), dy: st(2.0) }, &no_gamepad());
    assert!(input.listeners_of(Category::MouseAxis)[0].seen.is_empty());
}

#[test]
fn gamepad_axis_event_applies() {
    let mut input = Input::<RecordingListener>::new();
    let pending = vec![GamepadInput::Axis { axis: GamepadAxis::LeftStickX, value: st(0.6) }];
    input.event(&WindowInput::Other, &pending);
    assert_eq!(as_f32(input.get_f32(GamepadAxis::LeftStickX)), 0.6);
}

#[test]
fn gamepad_events_apply_in_arrival_order_and_notify() {
    let mut input = Input::<RecordingListener>::new();
    input.register_listener(Category::GamepadButton, RecordingListener::new());
    let pending = vec![
        GamepadInput::Button { button: GamepadButton::South, pressed: true },
        GamepadInput::Axis { axis: GamepadAxis::DPadX, value: st(-1.0) },
        GamepadInput::Button { button: GamepadButton::South, pressed: false },
    ];
    input.event(&WindowInput::Other, &pending);
    assert!(!input.get_bool(GamepadButton::South));
    assert_eq!(as_f32(input.get_f32(GamepadAxis::DPadX)), -1.0);
    let heard = &input.listeners_of(Category::GamepadButton)[0].seen;
    assert_eq!(
        heard.as_slice(),
        &[
            (InputEnum::GamepadButton(GamepadButton::South), st(1.0)),
            (InputEnum::GamepadButton(GamepadButton::South), st(0.0)),
        ]
    );
}

#[test]
fn drain_stays_armed_across_calls() {
    let mut input = Input::<RecordingListener>::new();
    assert!(input.wants_drain());
    input.event(
        &WindowInput::Keyboard { key: KeyboardButton::Tab, pressed: true },
        &no_gamepad(),
    );
    assert!(input.wants_drain());
    input.reset();
    assert!(input.wants_drain());
}
