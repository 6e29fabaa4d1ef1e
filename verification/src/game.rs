//! Game logic driven by the input core: the score, the per-tick update,
//! and the decision whether the driver keeps rendering.

use vstd::prelude::*;

use crate::input::Category;
use crate::input::GamepadInput;
use crate::input::Input;
use crate::input::InputEnum;
use crate::input::KeyboardButton;
use crate::input::Listener;
use crate::input::WindowInput;
use crate::input::applied;
use crate::input::event_notices;
use crate::input::event_writes;

verus! {

/// The game: a score and the input store it reads. The driver owns one
/// `Game`, hands every window event to [`Game::handle_event`], and calls
/// [`Game::update`] once per tick.
pub struct Game<L> {
    score: i32,
    input: Input<L>,
}

impl<L: Listener> Game<L> {
    /// The current score.
    pub closed spec fn score_spec(self) -> int {
        self.score as int
    }

    /// The game's input store.
    pub closed spec fn input_spec(self) -> Input<L> {
        self.input
    }

    /// A fresh game: score zero and a fresh input store.
    pub fn new() -> (r: Game<L>)
        ensures
            r.score_spec() == 0,
            r.input_spec().wf(),
            forall|e: InputEnum| r.input_spec().state(e) == crate::input::InputState::unset(),
            forall|c: Category| r.input_spec().listeners(c) == Seq::<L>::empty(),
            r.input_spec().drain_armed(),
    {
        Game { score: 0, input: Input::new() }
    }

    /// Reads the current score.
    pub fn score(&self) -> (r: i32)
        ensures
            r as int == self.score_spec(),
    {
        self.score
    }

    /// Gives the driver and consumers shared access to the input store.
    pub fn input(&self) -> (r: &Input<L>)
        ensures
            *r == self.input_spec(),
    {
        &self.input
    }

    /// One tick of game logic: while the space key reads as pressed, the
    /// score counts up by one per tick.
    pub fn update(&mut self)
        requires
            old(self).score_spec() < i32::MAX as int,
        ensures
            final(self).score_spec() == old(self).score_spec() + if old(self).input_spec().state(
                InputEnum::KeyboardButton(KeyboardButton::Space),
            ).is_set_spec() {
                1int
            } else {
                0int
            },
            final(self).input_spec() == old(self).input_spec(),
    {
        if self.input.get_bool(KeyboardButton::Space) {
            self.score = self.score + 1;
        }
    }

    /// The driver's per-tick reset: zeroes exactly the four transient
    /// delta axes of the mouse, leaves everything else untouched, and
    /// re-arms gamepad draining. Invoked exactly once per tick, after
    /// consumers have read the previous frame's state.
    pub fn reset(&mut self)
        ensures
            final(self).input_spec().state(InputEnum::MouseAxis(crate::input::MouseAxis::WheelDeltaX))
                == crate::input::InputState::unset(),
            final(self).input_spec().state(InputEnum::MouseAxis(crate::input::MouseAxis::WheelDeltaY))
                == crate::input::InputState::unset(),
            final(self).input_spec().state(
                InputEnum::MouseAxis(crate::input::MouseAxis::PositionDeltaX),
            ) == crate::input::InputState::unset(),
            final(self).input_spec().state(
                InputEnum::MouseAxis(crate::input::MouseAxis::PositionDeltaY),
            ) == crate::input::InputState::unset(),
            forall|e: InputEnum|
                (e != InputEnum::MouseAxis(crate::input::MouseAxis::WheelDeltaX) && e
                    != InputEnum::MouseAxis(crate::input::MouseAxis::WheelDeltaY) && e
                    != InputEnum::MouseAxis(crate::input::MouseAxis::PositionDeltaX) && e
                    != InputEnum::MouseAxis(crate::input::MouseAxis::PositionDeltaY))
                    ==> final(self).input_spec().state(e) == old(self).input_spec().state(e),
            forall|c: Category|
                final(self).input_spec().listeners(c) == old(self).input_spec().listeners(c),
            final(self).input_spec().drain_armed(),
            old(self).input_spec().wf() ==> final(self).input_spec().wf(),
            final(self).score_spec() == old(self).score_spec(),
    {
        self.input.reset();
    }

    /// Hands one window event, and whatever the gamepad backend had
    /// pending, to ingestion, then decides whether rendering continues:
    /// it stops once the escape key reads as pressed afterwards or the
    /// window was asked to close.
    pub fn handle_event(&mut self, event: &WindowInput, pending: &Vec<GamepadInput>) -> (r: bool)
        ensures
            forall|e: InputEnum|
                final(self).input_spec().state(e) == applied(
                    event_writes(*event, pending@, old(self).input_spec().drain_armed()),
                    e,
                    old(self).input_spec().state(e),
                ),
            forall|c: Category|
                final(self).input_spec().listeners(c).len() == old(self).input_spec().listeners(
                    c,
                ).len(),
            forall|c: Category, i: int|
                0 <= i < old(self).input_spec().listeners(c).len()
                    ==> final(self).input_spec().listeners(c)[i].heard()
                    == old(self).input_spec().listeners(c)[i].heard() + event_notices(
                    *event,
                    pending@,
                    old(self).input_spec().drain_armed(),
                    c,
                ),
            final(self).input_spec().drain_armed() == old(self).input_spec().drain_armed(),
            old(self).input_spec().wf() ==> final(self).input_spec().wf(),
            final(self).score_spec() == old(self).score_spec(),
            r == !(final(self).input_spec().state(
                InputEnum::KeyboardButton(KeyboardButton::Escape),
            ).is_set_spec() || *event == WindowInput::CloseRequested),
    {
        let mut continue_render = true;
        self.input.event(event, pending);
        if self.input.get_bool(KeyboardButton::Escape) {
            continue_render = false;
        }
        match *event {
            WindowInput::CloseRequested => {
                continue_render = false;
            },
            _ => {},
        }
        continue_render
    }
}

} // verus!
