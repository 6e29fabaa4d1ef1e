//! The state store read through the public accessors: defaults,
//! read-your-write, overwrites, and the per-frame reset.

use game_lib::input::GamepadAxis;
use game_lib::input::GamepadButton;
use game_lib::input::Input;
use game_lib::input::InputState;
use game_lib::input::KeyboardButton;
use game_lib::input::MouseAxis;
use game_lib::input::MouseButton;
use game_lib::input::RecordingListener;

fn st(value: f32) -> InputState {
    InputState { bits: value.to_bits() }
}

fn as_f32(state: InputState) -> f32 {
    f32::from_bits(state.bits)
}

#[test]
fn never_written_reads_default() {
    let input = Input::<RecordingListener>::new();
    assert_eq!(as_f32(input.get_f32(KeyboardButton::KeyQ)), 0.0);
    assert_eq!(as_f32(input.get_f32(MouseButton::Middle)), 0.0);
    assert_eq!(as_f32(input.get_f32(MouseAxis::PositionX)), 0.0);
    assert_eq!(as_f32(input.get_f32(GamepadButton::Start)), 0.0);
    assert_eq!(as_f32(input.get_f32(GamepadAxis::RightStickY)), 0.0);
    assert!(!input.get_bool(KeyboardButton::KeyQ));
    assert!(!input.get_bool(MouseButton::Other(7)));
    assert!(!input.get_bool(GamepadButton::Other));
}

#[test]
fn read_your_write_exact() {
    let mut input = Input::<RecordingListener>::new();
    input.set(GamepadAxis::LeftStickX, st(0.25));
    assert_eq!(as_f32(input.get_f32(GamepadAxis::LeftStickX)), 0.25);
    input.set(MouseAxis::PositionY, st(-133.5));
    assert_eq!(as_f32(input.get_f32(MouseAxis::PositionY)), -133.5);
    // the exact bit pattern comes back, even for a NaN payload
    let nan = InputState { bits: f32::NAN.to_bits() };
    input.set(GamepadAxis::RightZ, nan);
    assert_eq!(input.get_f32(GamepadAxis::RightZ).bits, f32::NAN.to_bits());
}

#[test]
fn overwrite_keeps_last_value() {
    let mut input = Input::<RecordingListener>::new();
    input.set(KeyboardButton::KeyW, InputState::one());
    input.set(KeyboardButton::KeyW, InputState::zero());
    input.set(KeyboardButton::KeyW, st(0.5));
    assert_eq!(as_f32(input.get_f32(KeyboardButton::KeyW)), 0.5);
}

#[test]
fn write_touches_only_its_key() {
    let mut input = Input::<RecordingListener>::new();
    input.set(KeyboardButton::KeyA, InputState::one());
    input.set(KeyboardButton::KeyB, st(3.0));
    assert!(input.get_bool(KeyboardButton::KeyA));
    assert_eq!(as_f32(input.get_f32(KeyboardButton::KeyB)), 3.0);
    assert!(!input.get_bool(KeyboardButton::KeyC));
}

#[test]
fn get_bool_is_not_numerically_zero() {
    let mut input = Input::<RecordingListener>::new();
    input.set(GamepadAxis::LeftZ, st(0.0001));
    assert!(input.get_bool(GamepadAxis::LeftZ));
    input.set(GamepadAxis::LeftZ, st(-1.0));
    assert!(input.get_bool(GamepadAxis::LeftZ));
    // both zero encodings compare equal to zero, so neither counts as set
    input.set(GamepadAxis::LeftZ, st(0.0));
    assert!(!input.get_bool(GamepadAxis::LeftZ));
    input.set(GamepadAxis::LeftZ, st(-0.0));
    assert!(!input.get_bool(GamepadAxis::LeftZ));
}

#[test]
fn digital_states_encode_zero_and_one() {
    assert_eq!(as_f32(InputState::digital(true)), 1.0);
    assert_eq!(as_f32(InputState::digital(false)), 0.0);
    assert_eq!(InputState::one().bits, 1.0f32.to_bits());
    assert_eq!(InputState::zero().bits, 0.0f32.to_bits());
    assert_eq!(InputState::default().bits, 0.0f32.to_bits());
}

#[test]
fn set_many_applies_all_pairs_last_wins() {
    let mut input = Input::<RecordingListener>::new();
    let pairs = vec![
        (MouseAxis::PositionX, st(10.0)),
        (MouseAxis::PositionY, st(20.0)),
        (MouseAxis::PositionX, st(30.0)),
    ];
    input.set_many(&pairs);
    assert_eq!(as_f32(input.get_f32(MouseAxis::PositionX)), 30.0);
    assert_eq!(as_f32(input.get_f32(MouseAxis::PositionY)), 20.0);
}

#[test]
fn reset_zeroes_exactly_the_delta_axes() {
    let mut input = Input::<RecordingListener>::new();
    input.set(MouseAxis::WheelDeltaX, st(1.5));
    input.set(MouseAxis::WheelDeltaY, st(2.5));
    input.set(MouseAxis::PositionDeltaX, st(3.5));
    input.set(MouseAxis::PositionDeltaY, st(4.5));
    input.set(MouseAxis::PositionX, st(100.0));
    input.set(MouseAxis::PositionY, st(200.0));
    input.set(KeyboardButton::Space, InputState::one());
    input.set(MouseButton::Left, InputState::one());
    input.set(GamepadAxis::LeftStickX, st(0.75));
    input.reset();
    assert_eq!(as_f32(input.get_f32(MouseAxis::WheelDeltaX)), 0.0);
    assert_eq!(as_f32(input.get_f32(MouseAxis::WheelDeltaY)), 0.0);
    assert_eq!(as_f32(input.get_f32(MouseAxis::PositionDeltaX)), 0.0);
    assert_eq!(as_f32(input.get_f32(MouseAxis::PositionDeltaY)), 0.0);
    // everything else is untouched
    assert_eq!(as_f32(input.get_f32(MouseAxis::PositionX)), 100.0);
    assert_eq!(as_f32(input.get_f32(MouseAxis::PositionY)), 200.0);
    assert!(input.get_bool(KeyboardButton::Space));
    assert!(input.get_bool(MouseButton::Left));
    assert_eq!(as_f32(input.get_f32(GamepadAxis::LeftStickX)), 0.75);
    assert!(input.wants_drain());
}

#[test]
fn serialized_writers_last_one_wins() {
    // Concurrent writers are serialized by the driver's exclusive lock, so
    // whichever acquires it last leaves its whole value; the store itself
    // keeps each write atomic. Both orders end on exactly one of the two
    // written values, never a mixture.
    let mut input = Input::<RecordingListener>::new();
    input.set(MouseButton::Left, st(1.0));
    input.set(MouseButton::Left, st(0.0));
    assert_eq!(as_f32(input.get_f32(MouseButton::Left)), 0.0);

    let mut input = Input::<RecordingListener>::new();
    input.set(MouseButton::Left, st(0.0));
    input.set(MouseButton::Left, st(1.0));
    assert_eq!(as_f32(input.get_f32(MouseButton::Left)), 1.0);
}
