//! The input subsystem: control state store, listener registry, event
//! ingestion and per-frame reset.
//!
//! One [`Input`] value bundles the per-category state maps, the listener
//! registry and the gamepad drain flag. It is created once at program start
//! and shared, behind one exclusive lock owned by the driver, with every
//! subsystem that reads or writes input; consumers read through the
//! accessors and register listeners, while mutation happens only through
//! the ingestion entry points and the per-frame reset.

mod events;
mod idents;
mod listener;
mod state;
mod store;

pub use events::GamepadInput;
pub use events::WindowInput;
pub use events::applied;
pub use events::batched;
pub use events::event_notices;
pub use events::event_writes;
pub use events::gamepad_write;
pub use events::gamepad_writes;
pub use events::lemma_applied_concat;
pub use events::lemma_applied_pair;
pub use events::lemma_applied_push;
pub use events::lemma_batched_pair;
pub use events::lemma_notices_push;
pub use events::notices_for;
pub use events::push_notices;
pub use events::push_notifies;
pub use events::push_writes;

pub use idents::Category;
pub use idents::GamepadAxis;
pub use idents::GamepadButton;
pub use idents::InputEnum;
pub use idents::InputMarker;
pub use idents::KeyboardButton;
pub use idents::MouseAxis;
pub use idents::MouseButton;
pub use listener::Listener;
pub use listener::RecordingListener;
pub use state::InputState;
pub use state::NEGATIVE_ZERO_BITS;
pub use state::ONE_BITS;
pub use state::lemma_unset_is_not_set;

use crate::input::store::StateMap;
use vstd::prelude::*;

verus! {

/// The process-wide input state: for every control its current state, for
/// every category its ordered list of observers, and the flag that arms the
/// draining of the gamepad backend.
///
/// State is partitioned by category into strongly keyed sub-maps behind one
/// tagged interface, so each category keeps its own identifier space while
/// the store still reads and writes through a single pair of entry points.
pub struct Input<L> {
    keyboard: StateMap<KeyboardButton>,
    mouse_buttons: StateMap<MouseButton>,
    mouse_axes: StateMap<MouseAxis>,
    gamepad_buttons: StateMap<GamepadButton>,
    gamepad_axes: StateMap<GamepadAxis>,
    keyboard_listeners: Vec<L>,
    mouse_button_listeners: Vec<L>,
    mouse_axis_listeners: Vec<L>,
    gamepad_button_listeners: Vec<L>,
    gamepad_axis_listeners: Vec<L>,
    needs_drain: bool,
}

impl<L: Listener> Input<L> {
    /// The state currently stored for a control: the default state where the
    /// control was never written.
    pub closed spec fn state(self, input: InputEnum) -> InputState {
        match input {
            InputEnum::GamepadAxis(a) => self.gamepad_axes.lookup(a),
            InputEnum::GamepadButton(b) => self.gamepad_buttons.lookup(b),
            InputEnum::KeyboardButton(k) => self.keyboard.lookup(k),
            InputEnum::MouseButton(b) => self.mouse_buttons.lookup(b),
            InputEnum::MouseAxis(a) => self.mouse_axes.lookup(a),
        }
    }

    /// The observers registered for a category, in registration order.
    pub closed spec fn listeners(self, category: Category) -> Seq<L> {
        match category {
            Category::KeyboardButton => self.keyboard_listeners@,
            Category::MouseButton => self.mouse_button_listeners@,
            Category::MouseAxis => self.mouse_axis_listeners@,
            Category::GamepadButton => self.gamepad_button_listeners@,
            Category::GamepadAxis => self.gamepad_axis_listeners@,
        }
    }

    /// Whether the next ingestion call drains the gamepad backend.
    pub closed spec fn drain_armed(self) -> bool {
        self.needs_drain
    }

    /// Every sub-map files each identifier at most once.
    pub closed spec fn wf(self) -> bool {
        &&& self.keyboard.wf()
        &&& self.mouse_buttons.wf()
        &&& self.mouse_axes.wf()
        &&& self.gamepad_buttons.wf()
        &&& self.gamepad_axes.wf()
    }

    /// A fresh store: every control reads as the default state, no observer
    /// is registered anywhere, and gamepad draining is armed.
    pub fn new() -> (r: Input<L>)
        ensures
            r.wf(),
            forall|e: InputEnum| r.state(e) == InputState::unset(),
            forall|c: Category| r.listeners(c) == Seq::<L>::empty(),
            r.drain_armed(),
    {
        let r = Input {
            keyboard: StateMap::new(),
            mouse_buttons: StateMap::new(),
            mouse_axes: StateMap::new(),
            gamepad_buttons: StateMap::new(),
            gamepad_axes: StateMap::new(),
            keyboard_listeners: Vec::new(),
            mouse_button_listeners: Vec::new(),
            mouse_axis_listeners: Vec::new(),
            gamepad_button_listeners: Vec::new(),
            gamepad_axis_listeners: Vec::new(),
            needs_drain: true,
        };
        proof {
            assert forall|e: InputEnum| r.state(e) == InputState::unset() by {}
            assert forall|c: Category| r.listeners(c) == Seq::<L>::empty() by {}
        }
        r
    }

    /// Reads the stored scalar state of a control. Never fails: a control
    /// that was never written reads as the default state.
    pub fn get_f32<I: InputMarker>(&self, input: I) -> (r: InputState)
        ensures
            r == self.state(input.into_spec()),
    {
        match input.into() {
            InputEnum::GamepadAxis(a) => self.gamepad_axes.get(a),
            InputEnum::GamepadButton(b) => self.gamepad_buttons.get(b),
            InputEnum::KeyboardButton(k) => self.keyboard.get(k),
            InputEnum::MouseButton(b) => self.mouse_buttons.get(b),
            InputEnum::MouseAxis(a) => self.mouse_axes.get(a),
        }
    }

    /// Reads a control as a digital value: whether its stored state is not
    /// numerically zero. A control that was never written reads as false.
    pub fn get_bool<I: InputMarker>(&self, input: I) -> (r: bool)
        ensures
            r == self.state(input.into_spec()).is_set_spec(),
    {
        let state = self.get_f32(input);
        state.is_set()
    }

    /// Whether the next ingestion call drains the gamepad backend: the
    /// driver consults this before polling pending hardware events.
    pub fn wants_drain(&self) -> (r: bool)
        ensures
            r == self.drain_armed(),
    {
        self.needs_drain
    }

    /// Appends `listener` to `category`'s notification list. Registration
    /// order is kept and is also notification order; registering the same
    /// observer twice files it twice, so it is notified twice.
    pub fn register_listener(&mut self, category: Category, listener: L)
        ensures
            final(self).listeners(category) == old(self).listeners(category).push(listener),
            forall|c: Category|
                c != category ==> final(self).listeners(c) == old(self).listeners(c),
            forall|e: InputEnum| final(self).state(e) == old(self).state(e),
            final(self).drain_armed() == old(self).drain_armed(),
            final(self).wf() == old(self).wf(),
    {
        match category {
            Category::KeyboardButton => self.keyboard_listeners.push(listener),
            Category::MouseButton => self.mouse_button_listeners.push(listener),
            Category::MouseAxis => self.mouse_axis_listeners.push(listener),
            Category::GamepadButton => self.gamepad_button_listeners.push(listener),
            Category::GamepadAxis => self.gamepad_axis_listeners.push(listener),
        }
    }

    /// The observers registered for a category, in registration order, for
    /// the driver to inspect.
    pub fn listeners_of(&self, category: Category) -> (r: &Vec<L>)
        ensures
            r@ == self.listeners(category),
    {
        match category {
            Category::KeyboardButton => &self.keyboard_listeners,
            Category::MouseButton => &self.mouse_button_listeners,
            Category::MouseAxis => &self.mouse_axis_listeners,
            Category::GamepadButton => &self.gamepad_button_listeners,
            Category::GamepadAxis => &self.gamepad_axis_listeners,
        }
    }

    /// Delivers one notification to every observer in `listeners`, in order.
    fn yell(listeners: &mut Vec<L>, input: InputEnum, state: InputState)
        ensures
            final(listeners)@.len() == old(listeners)@.len(),
            forall|i: int|
                0 <= i < old(listeners)@.len() ==> final(listeners)@[i].heard() == old(
                    listeners,
                )@[i].heard().push((input, state)),
    {
        let n = listeners.len();
        let mut i: usize = 0;
        while i < n
            invariant
                n == listeners@.len(),
                listeners@.len() == old(listeners)@.len(),
                i <= n,
                forall|j: int|
                    0 <= j < i ==> listeners@[j].heard() == old(listeners)@[j].heard().push(
                        (input, state),
                    ),
                forall|j: int| i <= j < n ==> listeners@[j] == old(listeners)@[j],
            decreases n - i,
        {
            let observer = &mut listeners[i];
            observer.hear(input, state);
            i += 1;
        }
    }

    /// Writes one control's state and notifies the control's category:
    /// every observer registered for it receives exactly one notification
    /// carrying the written identifier and state, in registration order.
    fn set_enum(&mut self, input: InputEnum, state: InputState)
        ensures
            forall|e: InputEnum|
                final(self).state(e) == if e == input {
                    state
                } else {
                    old(self).state(e)
                },
            forall|c: Category|
                c != input.category() ==> final(self).listeners(c) == old(self).listeners(c),
            final(self).listeners(input.category()).len() == old(self).listeners(
                input.category(),
            ).len(),
            forall|i: int|
                0 <= i < old(self).listeners(input.category()).len() ==> final(self).listeners(
                    input.category(),
                )[i].heard() == old(self).listeners(input.category())[i].heard().push(
                    (input, state),
                ),
            final(self).drain_armed() == old(self).drain_armed(),
            old(self).wf() ==> final(self).wf(),
    {
        match input {
            InputEnum::GamepadAxis(a) => {
                self.gamepad_axes.write(a, state);
                Self::yell(&mut self.gamepad_axis_listeners, input, state);
            },
            InputEnum::GamepadButton(b) => {
                self.gamepad_buttons.write(b, state);
                Self::yell(&mut self.gamepad_button_listeners, input, state);
            },
            InputEnum::KeyboardButton(k) => {
                self.keyboard.write(k, state);
                Self::yell(&mut self.keyboard_listeners, input, state);
            },
            InputEnum::MouseButton(b) => {
                self.mouse_buttons.write(b, state);
                Self::yell(&mut self.mouse_button_listeners, input, state);
            },
            InputEnum::MouseAxis(a) => {
                self.mouse_axes.write(a, state);
                Self::yell(&mut self.mouse_axis_listeners, input, state);
            },
        }
    }

    /// Overwrites one control's state and synchronously notifies every
    /// observer registered for the control's category, in registration
    /// order, with the written identifier and state, before returning.
    pub fn set<I: InputMarker>(&mut self, input: I, state: InputState)
        ensures
            forall|e: InputEnum|
                final(self).state(e) == if e == input.into_spec() {
                    state
                } else {
                    old(self).state(e)
                },
            forall|c: Category|
                c != I::category_spec() ==> final(self).listeners(c) == old(self).listeners(c),
            final(self).listeners(I::category_spec()).len() == old(self).listeners(
                I::category_spec(),
            ).len(),
            forall|i: int|
                0 <= i < old(self).listeners(I::category_spec()).len() ==> final(self).listeners(
                    I::category_spec(),
                )[i].heard() == old(self).listeners(I::category_spec())[i].heard().push(
                    (input.into_spec(), state),
                ),
            final(self).drain_armed() == old(self).drain_armed(),
            old(self).wf() ==> final(self).wf(),
    {
        proof {
            input.lemma_into_category();
        }
        let e = input.into();
        self.set_enum(e, state);
    }

    /// Writes one control's state without consulting the listener registry.
    fn set_silent(&mut self, input: InputEnum, state: InputState)
        ensures
            forall|e: InputEnum|
                final(self).state(e) == if e == input {
                    state
                } else {
                    old(self).state(e)
                },
            forall|c: Category| final(self).listeners(c) == old(self).listeners(c),
            final(self).drain_armed() == old(self).drain_armed(),
            old(self).wf() ==> final(self).wf(),
    {
        match input {
            InputEnum::GamepadAxis(a) => self.gamepad_axes.write(a, state),
            InputEnum::GamepadButton(b) => self.gamepad_buttons.write(b, state),
            InputEnum::KeyboardButton(k) => self.keyboard.write(k, state),
            InputEnum::MouseButton(b) => self.mouse_buttons.write(b, state),
            InputEnum::MouseAxis(a) => self.mouse_axes.write(a, state),
        }
    }

    /// Applies all of `pairs` as one batch write, in order, each pair
    /// overwriting its identifier; where a batch names an identifier twice
    /// the later pair wins. Unlike [`Input::set`], the batch path does not
    /// consult the listener registry: no observer is notified. Readers of
    /// the shared store never observe a part of a batch, because callers
    /// run every store operation under the driver's exclusive lock and the
    /// whole batch is one such operation.
    pub fn set_many<I: InputMarker>(&mut self, pairs: &Vec<(I, InputState)>)
        ensures
            forall|x: I|
                final(self).state(x.into_spec()) == batched(
                    pairs@,
                    x,
                    old(self).state(x.into_spec()),
                ),
            forall|e: InputEnum|
                e.category() != I::category_spec() ==> final(self).state(e) == old(self).state(e),
            forall|c: Category| final(self).listeners(c) == old(self).listeners(c),
            final(self).drain_armed() == old(self).drain_armed(),
            old(self).wf() ==> final(self).wf(),
    {
        let mut i: usize = 0;
        while i < pairs.len()
            invariant
                i <= pairs@.len(),
                forall|x: I|
                    self.state(x.into_spec()) == batched(
                        pairs@.subrange(0, i as int),
                        x,
                        old(self).state(x.into_spec()),
                    ),
                forall|e: InputEnum|
                    e.category() != I::category_spec() ==> self.state(e) == old(self).state(e),
                forall|c: Category| self.listeners(c) == old(self).listeners(c),
                self.drain_armed() == old(self).drain_armed(),
                old(self).wf() ==> self.wf(),
            decreases pairs@.len() - i,
        {
            let p = pairs[i];
            proof {
                p.0.lemma_into_category();
            }
            let e = p.0.into();
            self.set_silent(e, p.1);
            proof {
                let s_pre = pairs@.subrange(0, i as int);
                let s_post = pairs@.subrange(0, i as int + 1);
                assert(s_post.drop_last() =~= s_pre);
                assert(s_post.last() == pairs@[i as int]);
                assert forall|x: I|
                    self.state(x.into_spec()) == batched(
                        s_post,
                        x,
                        old(self).state(x.into_spec()),
                    ) by {
                    I::lemma_into_injective(x, pairs@[i as int].0);
                }
            }
            i += 1;
        }
        proof {
            assert(pairs@.subrange(0, pairs@.len() as int) =~= pairs@);
        }
    }

    /// Applies every drained gamepad event, in arrival order: a button
    /// press or release is a single-key write of the digital state, an
    /// axis change a single-key write of its new value; every one of these
    /// writes notifies its category's observers.
    fn drain(&mut self, pending: &Vec<GamepadInput>)
        ensures
            forall|e: InputEnum|
                final(self).state(e) == applied(gamepad_writes(pending@), e, old(self).state(e)),
            forall|c: Category| final(self).listeners(c).len() == old(self).listeners(c).len(),
            forall|c: Category, i: int|
                0 <= i < old(self).listeners(c).len() ==> final(self).listeners(c)[i].heard()
                    == old(self).listeners(c)[i].heard() + notices_for(
                    gamepad_writes(pending@),
                    c,
                ),
            final(self).drain_armed() == old(self).drain_armed(),
            old(self).wf() ==> final(self).wf(),
    {
        proof {
            assert forall|c: Category, j: int|
                0 <= j < old(self).listeners(c).len() implies old(self).listeners(c)[j].heard()
                == old(self).listeners(c)[j].heard() + notices_for(
                gamepad_writes(pending@.subrange(0, 0)),
                c,
            ) by {
                assert(old(self).listeners(c)[j].heard() + Seq::<(InputEnum, InputState)>::empty()
                    =~= old(self).listeners(c)[j].heard());
            }
        }
        let mut i: usize = 0;
        while i < pending.len()
            invariant
                i <= pending@.len(),
                forall|e: InputEnum|
                    self.state(e) == applied(
                        gamepad_writes(pending@.subrange(0, i as int)),
                        e,
                        old(self).state(e),
                    ),
                forall|c: Category| self.listeners(c).len() == old(self).listeners(c).len(),
                forall|c: Category, j: int|
                    0 <= j < old(self).listeners(c).len() ==> self.listeners(c)[j].heard() == old(
                        self,
                    ).listeners(c)[j].heard() + notices_for(
                        gamepad_writes(pending@.subrange(0, i as int)),
                        c,
                    ),
                self.drain_armed() == old(self).drain_armed(),
                old(self).wf() ==> self.wf(),
            decreases pending@.len() - i,
        {
            let g = pending[i];
            let ghost w = gamepad_write(g);
            let ghost pre = gamepad_writes(pending@.subrange(0, i as int));
            match g {
                GamepadInput::Button { button, pressed } => {
                    self.set(button, InputState::digital(pressed));
                },
                GamepadInput::Axis { axis, value } => {
                    self.set(axis, value);
                },
            }
            proof {
                assert(pending@.subrange(0, i as int + 1).drop_last() =~= pending@.subrange(
                    0,
                    i as int,
                ));
                assert(pending@.subrange(0, i as int + 1).last() == pending@[i as int]);
                assert(gamepad_writes(pending@.subrange(0, i as int + 1)) == pre.push(w));
                assert forall|e: InputEnum|
                    self.state(e) == applied(pre.push(w), e, old(self).state(e)) by {
                    lemma_applied_push(pre, w, e, old(self).state(e));
                }
                assert forall|c: Category, j: int|
                    0 <= j < old(self).listeners(c).len() implies self.listeners(c)[j].heard()
                    == old(self).listeners(c)[j].heard() + notices_for(pre.push(w), c) by {
                    lemma_notices_push(pre, w, c);
                    if w.0.category() == c {
                        assert((old(self).listeners(c)[j].heard() + notices_for(pre, c)).push(w)
                            =~= old(self).listeners(c)[j].heard() + notices_for(pre, c).push(w));
                    }
                }
            }
            i += 1;
        }
        proof {
            assert(pending@.subrange(0, pending@.len() as int) =~= pending@);
        }
    }

    /// One ingestion call. The push path applies the window event: a key
    /// or mouse-button event is a single-key write that notifies its
    /// category's observers; the wheel, cursor and motion events are batch
    /// writes of their two axes and notify nobody; every other window
    /// event is ignored. The poll path then runs as part of the same call:
    /// where draining is armed, every pending gamepad event becomes a
    /// single-key write, in arrival order, each notifying its category,
    /// and the flag is re-armed so the next call drains again.
    pub fn event(&mut self, event: &WindowInput, pending: &Vec<GamepadInput>)
        ensures
            forall|e: InputEnum|
                final(self).state(e) == applied(
                    event_writes(*event, pending@, old(self).drain_armed()),
                    e,
                    old(self).state(e),
                ),
            forall|c: Category| final(self).listeners(c).len() == old(self).listeners(c).len(),
            forall|c: Category, i: int|
                0 <= i < old(self).listeners(c).len() ==> final(self).listeners(c)[i].heard()
                    == old(self).listeners(c)[i].heard() + event_notices(
                    *event,
                    pending@,
                    old(self).drain_armed(),
                    c,
                ),
            final(self).drain_armed() == old(self).drain_armed(),
            old(self).wf() ==> final(self).wf(),
    {
        match *event {
            WindowInput::Keyboard { key, pressed } => {
                self.set(key, InputState::digital(pressed));
                proof {
                    let w = (InputEnum::KeyboardButton(key), InputState::digital_spec(pressed));
                    assert(push_writes(*event) =~= Seq::<(InputEnum, InputState)>::empty().push(
                        w,
                    ));
                    assert forall|e: InputEnum|
                        self.state(e) == applied(push_writes(*event), e, old(self).state(e)) by {
                        lemma_applied_push(
                            Seq::<(InputEnum, InputState)>::empty(),
                            w,
                            e,
                            old(self).state(e),
                        );
                    }
                    assert forall|c: Category, j: int|
                        0 <= j < old(self).listeners(c).len() implies self.listeners(c)[j].heard()
                        == old(self).listeners(c)[j].heard() + push_notices(*event, c) by {
                        lemma_notices_push(Seq::<(InputEnum, InputState)>::empty(), w, c);
                        if c == Category::KeyboardButton {
                            assert(old(self).listeners(c)[j].heard().push(w) =~= old(
                                self,
                            ).listeners(c)[j].heard() + Seq::<(InputEnum, InputState)>::empty().push(
                                w,
                            ));
                        } else {
                            assert(old(self).listeners(c)[j].heard() + Seq::<
                                (InputEnum, InputState),
                            >::empty() =~= old(self).listeners(c)[j].heard());
                        }
                    }
                }
            },
            WindowInput::MouseClick { button, pressed } => {
                self.set(button, InputState::digital(pressed));
                proof {
                    let w = (InputEnum::MouseButton(button), InputState::digital_spec(pressed));
                    assert(push_writes(*event) =~= Seq::<(InputEnum, InputState)>::empty().push(
                        w,
                    ));
                    assert forall|e: InputEnum|
                        self.state(e) == applied(push_writes(*event), e, old(self).state(e)) by {
                        lemma_applied_push(
                            Seq::<(InputEnum, InputState)>::empty(),
                            w,
                            e,
                            old(self).state(e),
                        );
                    }
                    assert forall|c: Category, j: int|
                        0 <= j < old(self).listeners(c).len() implies self.listeners(c)[j].heard()
                        == old(self).listeners(c)[j].heard() + push_notices(*event, c) by {
                        lemma_notices_push(Seq::<(InputEnum, InputState)>::empty(), w, c);
                        if c == Category::MouseButton {
                            assert(old(self).listeners(c)[j].heard().push(w) =~= old(
                                self,
                            ).listeners(c)[j].heard() + Seq::<(InputEnum, InputState)>::empty().push(
                                w,
                            ));
                        } else {
                            assert(old(self).listeners(c)[j].heard() + Seq::<
                                (InputEnum, InputState),
                            >::empty() =~= old(self).listeners(c)[j].heard());
                        }
                    }
                }
            },
            WindowInput::Wheel { dx, dy } => {
                let mut pairs: Vec<(MouseAxis, InputState)> = Vec::new();
                pairs.push((MouseAxis::WheelDeltaX, dx));
                pairs.push((MouseAxis::WheelDeltaY, dy));
                self.set_many(&pairs);
                proof {
                    self.lemma_axis_pair_written(
                        *old(self),
                        pairs@,
                        MouseAxis::WheelDeltaX,
                        dx,
                        MouseAxis::WheelDeltaY,
                        dy,
                        *event,
                    );
                }
            },
            WindowInput::CursorMoved { x, y } => {
                let mut pairs: Vec<(MouseAxis, InputState)> = Vec::new();
                pairs.push((MouseAxis::PositionX, x));
                pairs.push((MouseAxis::PositionY, y));
                self.set_many(&pairs);
                proof {
                    self.lemma_axis_pair_written(
                        *old(self),
                        pairs@,
                        MouseAxis::PositionX,
                        x,
                        MouseAxis::PositionY,
                        y,
                        *event,
                    );
                }
            },
            WindowInput::MouseMotion { dx, dy } => {
                let mut pairs: Vec<(MouseAxis, InputState)> = Vec::new();
                pairs.push((MouseAxis::PositionDeltaX, dx));
                pairs.push((MouseAxis::PositionDeltaY, dy));
                self.set_many(&pairs);
                proof {
                    self.lemma_axis_pair_written(
                        *old(self),
                        pairs@,
                        MouseAxis::PositionDeltaX,
                        dx,
                        MouseAxis::PositionDeltaY,
                        dy,
                        *event,
                    );
                }
            },
            WindowInput::CloseRequested => {
                proof {
                    Self::lemma_no_push_write(*old(self), *self, *event);
                }
            },
            WindowInput::Other => {
                proof {
                    Self::lemma_no_push_write(*old(self), *self, *event);
                }
            },
        }
        if self.needs_drain {
            self.drain(pending);
            proof {
                assert forall|e: InputEnum|
                    self.state(e) == applied(
                        event_writes(*event, pending@, old(self).drain_armed()),
                        e,
                        old(self).state(e),
                    ) by {
                    lemma_applied_concat(
                        push_writes(*event),
                        gamepad_writes(pending@),
                        e,
                        old(self).state(e),
                    );
                }
                assert forall|c: Category, i: int|
                    0 <= i < old(self).listeners(c).len() implies self.listeners(c)[i].heard()
                    == old(self).listeners(c)[i].heard() + event_notices(
                    *event,
                    pending@,
                    old(self).drain_armed(),
                    c,
                ) by {
                    assert((old(self).listeners(c)[i].heard() + push_notices(*event, c))
                        + notices_for(gamepad_writes(pending@), c) =~= old(self).listeners(
                        c,
                    )[i].heard() + (push_notices(*event, c) + notices_for(
                        gamepad_writes(pending@),
                        c,
                    )));
                }
            }
            self.needs_drain = true;
        } else {
            proof {
                assert(push_writes(*event) + Seq::<(InputEnum, InputState)>::empty()
                    =~= push_writes(*event));
                assert forall|c: Category, i: int|
                    0 <= i < old(self).listeners(c).len() implies self.listeners(c)[i].heard()
                    == old(self).listeners(c)[i].heard() + event_notices(
                    *event,
                    pending@,
                    old(self).drain_armed(),
                    c,
                ) by {
                    assert(push_notices(*event, c) + Seq::<(InputEnum, InputState)>::empty()
                        =~= push_notices(*event, c));
                }
            }
        }
    }

    /// After a batch write of exactly the two axis pairs that the push
    /// path derives from `ev`, the store and registry stand as `applied`
    /// and `push_notices` describe.
    proof fn lemma_axis_pair_written(
        self,
        pre: Input<L>,
        pairs: Seq<(MouseAxis, InputState)>,
        a1: MouseAxis,
        v1: InputState,
        a2: MouseAxis,
        v2: InputState,
        ev: WindowInput,
    )
        requires
            pairs =~= seq![(a1, v1), (a2, v2)],
            push_writes(ev) =~= seq![
                (InputEnum::MouseAxis(a1), v1),
                (InputEnum::MouseAxis(a2), v2),
            ],
            !push_notifies(ev),
            forall|x: MouseAxis|
                self.state(x.into_spec()) == batched(pairs, x, pre.state(x.into_spec())),
            forall|e: InputEnum| e.category() != Category::MouseAxis ==> self.state(e) == pre.state(e),
            forall|c: Category| self.listeners(c) == pre.listeners(c),
        ensures
            forall|e: InputEnum| self.state(e) == applied(push_writes(ev), e, pre.state(e)),
            forall|c: Category, j: int|
                0 <= j < pre.listeners(c).len() ==> self.listeners(c)[j].heard() == pre.listeners(
                    c,
                )[j].heard() + push_notices(ev, c),
    {
        let w1 = (InputEnum::MouseAxis(a1), v1);
        let w2 = (InputEnum::MouseAxis(a2), v2);
        assert forall|e: InputEnum| self.state(e) == applied(push_writes(ev), e, pre.state(e)) by {
            lemma_applied_pair(w1, w2, e, pre.state(e));
            assert(applied(push_writes(ev), e, pre.state(e)) == if e == w2.0 {
                w2.1
            } else if e == w1.0 {
                w1.1
            } else {
                pre.state(e)
            });
            match e {
                InputEnum::MouseAxis(a) => {
                    assert(a.into_spec() == e);
                    assert(self.state(a.into_spec()) == batched(pairs, a, pre.state(a.into_spec())));
                    lemma_batched_pair((a1, v1), (a2, v2), a, pre.state(a.into_spec()));
                    assert(batched(pairs, a, pre.state(a.into_spec())) == if a == a2 {
                        v2
                    } else if a == a1 {
                        v1
                    } else {
                        pre.state(a.into_spec())
                    });
                    assert((e == w2.0) == (a == a2));
                    assert((e == w1.0) == (a == a1));
                },
                _ => {
                    assert(e.category() != Category::MouseAxis);
                    assert(self.state(e) == pre.state(e));
                    assert(e != w1.0 && e != w2.0);
                },
            }
        }
        assert forall|c: Category, j: int|
            0 <= j < pre.listeners(c).len() implies self.listeners(c)[j].heard() == pre.listeners(
            c,
        )[j].heard() + push_notices(ev, c) by {
            assert(pre.listeners(c)[j].heard() + Seq::<(InputEnum, InputState)>::empty()
                =~= pre.listeners(c)[j].heard());
        }
    }

    /// An ignored window event writes nothing and notifies nobody.
    proof fn lemma_no_push_write(pre: Input<L>, post: Input<L>, ev: WindowInput)
        requires
            push_writes(ev) =~= Seq::<(InputEnum, InputState)>::empty(),
            !push_notifies(ev),
            post == pre,
        ensures
            forall|e: InputEnum| post.state(e) == applied(push_writes(ev), e, pre.state(e)),
            forall|c: Category, j: int|
                0 <= j < pre.listeners(c).len() ==> post.listeners(c)[j].heard() == pre.listeners(
                    c,
                )[j].heard() + push_notices(ev, c),
    {
        assert forall|c: Category, j: int|
            0 <= j < pre.listeners(c).len() implies post.listeners(c)[j].heard() == pre.listeners(
            c,
        )[j].heard() + push_notices(ev, c) by {
            assert(pre.listeners(c)[j].heard() + Seq::<(InputEnum, InputState)>::empty()
                =~= pre.listeners(c)[j].heard());
        }
    }

    /// The per-frame reset, invoked exactly once per driver tick after
    /// consumers have read the previous frame's state. It zeroes exactly
    /// the four transient delta axes — wheel delta and motion delta — and
    /// leaves every button, the absolute cursor position and every gamepad
    /// value untouched; no observer is notified. It also re-arms the
    /// gamepad drain flag.
    pub fn reset(&mut self)
        ensures
            final(self).state(InputEnum::MouseAxis(MouseAxis::WheelDeltaX))
                == InputState::unset(),
            final(self).state(InputEnum::MouseAxis(MouseAxis::WheelDeltaY))
                == InputState::unset(),
            final(self).state(InputEnum::MouseAxis(MouseAxis::PositionDeltaX))
                == InputState::unset(),
            final(self).state(InputEnum::MouseAxis(MouseAxis::PositionDeltaY))
                == InputState::unset(),
            forall|e: InputEnum|
                (e != InputEnum::MouseAxis(MouseAxis::WheelDeltaX) && e != InputEnum::MouseAxis(
                    MouseAxis::WheelDeltaY,
                ) && e != InputEnum::MouseAxis(MouseAxis::PositionDeltaX) && e
                    != InputEnum::MouseAxis(MouseAxis::PositionDeltaY)) ==> final(self).state(e)
                    == old(self).state(e),
            forall|c: Category| final(self).listeners(c) == old(self).listeners(c),
            final(self).drain_armed(),
            old(self).wf() ==> final(self).wf(),
    {
        self.set_silent(InputEnum::MouseAxis(MouseAxis::PositionDeltaX), InputState::zero());
        self.set_silent(InputEnum::MouseAxis(MouseAxis::PositionDeltaY), InputState::zero());
        self.set_silent(InputEnum::MouseAxis(MouseAxis::WheelDeltaX), InputState::zero());
        self.set_silent(InputEnum::MouseAxis(MouseAxis::WheelDeltaY), InputState::zero());
        proof {
            assert(self.state(InputEnum::MouseAxis(MouseAxis::WheelDeltaX))
                == InputState::unset());
            assert(self.state(InputEnum::MouseAxis(MouseAxis::WheelDeltaY))
                == InputState::unset());
            assert(self.state(InputEnum::MouseAxis(MouseAxis::PositionDeltaX))
                == InputState::unset());
            assert(self.state(InputEnum::MouseAxis(MouseAxis::PositionDeltaY))
                == InputState::unset());
            assert forall|e: InputEnum|
                (e != InputEnum::MouseAxis(MouseAxis::WheelDeltaX) && e != InputEnum::MouseAxis(
                    MouseAxis::WheelDeltaY,
                ) && e != InputEnum::MouseAxis(MouseAxis::PositionDeltaX) && e
                    != InputEnum::MouseAxis(MouseAxis::PositionDeltaY)) implies self.state(e)
                == old(self).state(e) by {}
        }
        self.needs_drain = true;
    }
}

impl<L: Listener> Default for Input<L> {
    /// Same as [`Input::new`]: a fresh store with nothing written, no
    /// observer registered, and gamepad draining armed.
    fn default() -> (r: Self)
        ensures
            r.wf(),
            forall|e: InputEnum| r.state(e) == InputState::unset(),
            forall|c: Category| r.listeners(c) == Seq::<L>::empty(),
            r.drain_armed(),
    {
        Input::new()
    }
}

} // verus!
