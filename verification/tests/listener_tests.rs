//! The listener registry: registration order, notification payloads, and
//! which paths notify at all.

use game_lib::input::Category;
use game_lib::input::GamepadAxis;
use game_lib::input::Input;
use game_lib::input::InputEnum;
use game_lib::input::InputState;
use game_lib::input::KeyboardButton;
use game_lib::input::MouseAxis;
use game_lib::input::MouseButton;
use game_lib::input::RecordingListener;

fn st(value: f32) -> InputState {
    InputState { bits: value.to_bits() }
}

#[test]
fn set_notifies_exactly_once_with_payload() {
    let mut input = Input::<RecordingListener>::new();
    input.register_listener(Category::KeyboardButton, RecordingListener::new());
    input.set(KeyboardButton::KeyA, InputState::digital(true));
    let heard = &input.listeners_of(Category::KeyboardButton)[0].seen;
    assert_eq!(heard.len(), 1);
    assert_eq!(
        heard[0],
        (InputEnum::KeyboardButton(KeyboardButton::KeyA), st(1.0))
    );
}

#[test]
fn set_of_other_category_notifies_nobody() {
    let mut input = Input::<RecordingListener>::new();
    input.register_listener(Category::KeyboardButton, RecordingListener::new());
    input.set(MouseButton::Left, InputState::one());
    input.set(GamepadAxis::LeftStickX, st(0.5));
    assert!(input.listeners_of(Category::KeyboardButton)[0].seen.is_empty());
}

#[test]
fn listeners_notified_in_registration_order_and_twice_if_registered_twice() {
    let mut input = Input::<RecordingListener>::new();
    input.register_listener(Category::MouseButton, RecordingListener::new());
    input.register_listener(Category::MouseButton, RecordingListener::new());
    input.set(MouseButton::Right, InputState::one());
    input.set(MouseButton::Right, InputState::zero());
    let listeners = input.listeners_of(Category::MouseButton);
    assert_eq!(listeners.len(), 2);
    for listener in listeners {
        assert_eq!(
            listener.seen,
            vec![
                (InputEnum::MouseButton(MouseButton::Right), st(1.0)),
                (InputEnum::MouseButton(MouseButton::Right), st(0.0)),
            ]
        );
    }
}

#[test]
fn set_many_notifies_nobody() {
    // The batch path deliberately skips the registry, unlike single-key
    // writes: batched axis updates are high-frequency.
    let mut input = Input::<RecordingListener>::new();
    input.register_listener(Category::MouseAxis, RecordingListener::new());
    let pairs = vec![
        (MouseAxis::WheelDeltaX, st(1.0)),
        (MouseAxis::WheelDeltaY, st(2.0)),
    ];
    input.set_many(&pairs);
    assert!(input.listeners_of(Category::MouseAxis)[0].seen.is_empty());
}

#[test]
fn reset_notifies_nobody() {
    let mut input = Input::<RecordingListener>::new();
    input.register_listener(Category::MouseAxis, RecordingListener::new());
    input.set_many(&vec![(MouseAxis::WheelDeltaY, st(2.5))]);
    input.reset();
    assert!(input.listeners_of(Category::MouseAxis)[0].seen.is_empty());
}
