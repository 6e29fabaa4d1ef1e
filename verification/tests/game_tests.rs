//! The game layer: score ticking and the continue-rendering decision.

use game_lib::game::Game;
use game_lib::input::GamepadInput;
use game_lib::input::KeyboardButton;
use game_lib::input::RecordingListener;
use game_lib::input::WindowInput;

fn no_gamepad() -> Vec<GamepadInput> {
    Vec::new()
}

#[test]
fn score_counts_ticks_with_space_held() {
    let mut game = Game::<RecordingListener>::new();
    assert_eq!(game.score(), 0);
    game.update();
    assert_eq!(game.score(), 0);
    game.handle_event(
        &WindowInput::Keyboard { key: KeyboardButton::Space, pressed: true },
        &no_gamepad(),
    );
    game.update();
    game.update();
    assert_eq!(game.score(), 2);
    game.handle_event(
        &WindowInput::Keyboard { key: KeyboardButton::Space, pressed: false },
        &no_gamepad(),
    );
    game.update();
    assert_eq!(game.score(), 2);
}

#[test]
fn escape_stops_rendering() {
    let mut game = Game::<RecordingListener>::new();
    assert!(game.handle_event(
        &WindowInput::Keyboard { key: KeyboardButton::KeyW, pressed: true },
        &no_gamepad(),
    ));
    assert!(!game.handle_event(
        &WindowInput::Keyboard { key: KeyboardButton::Escape, pressed: true },
        &no_gamepad(),
    ));
    // escape still reads as pressed afterwards, so any event stops it
    assert!(!game.handle_event(&WindowInput::Other, &no_gamepad()));
}

#[test]
fn close_request_stops_rendering() {
    let mut game = Game::<RecordingListener>::new();
    assert!(!game.handle_event(&WindowInput::CloseRequested, &no_gamepad()));
}

#[test]
fn game_reads_its_input_store() {
    let mut game = Game::<RecordingListener>::new();
    game.handle_event(
        &WindowInput::Keyboard { key: KeyboardButton::KeyD, pressed: true },
        &no_gamepad(),
    );
    assert!(game.input().get_bool(KeyboardButton::KeyD));
}
