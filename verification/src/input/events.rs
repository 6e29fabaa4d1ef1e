//! Plain-valued events handed to ingestion, and the write and notification
//! sequences one ingestion call performs for them.

use vstd::prelude::*;

use crate::input::idents::Category;
use crate::input::idents::GamepadAxis;
use crate::input::idents::GamepadButton;
use crate::input::idents::InputEnum;
use crate::input::idents::InputMarker;
use crate::input::idents::KeyboardButton;
use crate::input::idents::MouseAxis;
use crate::input::idents::MouseButton;
use crate::input::state::InputState;

verus! {

/// What a batch write leaves for identifier `x`: the value beside its last
/// occurrence among `pairs`, or `dflt` where it never occurs.
pub open spec fn batched<I: InputMarker>(
    pairs: Seq<(I, InputState)>,
    x: I,
    dflt: InputState,
) -> InputState
    decreases pairs.len(),
{
    if pairs.len() == 0 {
        dflt
    } else if pairs.last().0 == x {
        pairs.last().1
    } else {
        batched(pairs.drop_last(), x, dflt)
    }
}

/// What a batch of two pairs leaves for each identifier.
pub proof fn lemma_batched_pair<I: InputMarker>(
    p1: (I, InputState),
    p2: (I, InputState),
    x: I,
    dflt: InputState,
)
    ensures
        batched(seq![p1, p2], x, dflt) == if x == p2.0 {
            p2.1
        } else if x == p1.0 {
            p1.1
        } else {
            dflt
        },
{
    let ps = seq![p1, p2];
    assert(ps.drop_last() =~= seq![p1]);
    assert(seq![p1].drop_last() =~= Seq::<(I, InputState)>::empty());
    assert(batched(Seq::<(I, InputState)>::empty(), x, dflt) == dflt);
    assert(batched(seq![p1], x, dflt) == if x == p1.0 {
        p1.1
    } else {
        dflt
    });
}

/// One event delivered by the windowing layer, reduced to the plain values
/// the store ingests. The adapter around the window system produces these:
/// scroll deltas arrive here already normalized to a pair of scalars,
/// whether the system reported them line-based or pixel-based.
#[derive(Clone, Copy, Debug, PartialEq, Eq, Structural)]
pub enum WindowInput {
    /// A key was pressed or released.
    Keyboard { key: KeyboardButton, pressed: bool },
    /// A mouse button was pressed or released.
    MouseClick { button: MouseButton, pressed: bool },
    /// The wheel turned: a per-frame delta.
    Wheel { dx: InputState, dy: InputState },
    /// The cursor moved to an absolute position.
    CursorMoved { x: InputState, y: InputState },
    /// The mouse moved: relative motion, independent of the cursor position.
    MouseMotion { dx: InputState, dy: InputState },
    /// The window was asked to close. Ingestion ignores it; the driver acts.
    CloseRequested,
    /// Every other kind of event: ignored.
    Other,
}

/// One pending hardware event drained from the gamepad backend. The adapter
/// around the backend collapses hardware identifiers with no known mapping
/// to each category's catch-all identifier, so draining never fails.
#[derive(Clone, Copy, Debug, PartialEq, Eq, Structural)]
pub enum GamepadInput {
    /// A button was pressed or released.
    Button { button: GamepadButton, pressed: bool },
    /// An axis moved to a new value.
    Axis { axis: GamepadAxis, value: InputState },
}

/// The store write that one drained gamepad event maps to.
pub open spec fn gamepad_write(g: GamepadInput) -> (InputEnum, InputState) {
    match g {
        GamepadInput::Button { button, pressed } => (
            InputEnum::GamepadButton(button),
            InputState::digital_spec(pressed),
        ),
        GamepadInput::Axis { axis, value } => (InputEnum::GamepadAxis(axis), value),
    }
}

/// The store writes of the poll path for the drained events, in order.
pub open spec fn gamepad_writes(pending: Seq<GamepadInput>) -> Seq<(InputEnum, InputState)>
    decreases pending.len(),
{
    if pending.len() == 0 {
        Seq::empty()
    } else {
        gamepad_writes(pending.drop_last()).push(gamepad_write(pending.last()))
    }
}

/// The store writes of the push path for one window event, in order.
pub open spec fn push_writes(ev: WindowInput) -> Seq<(InputEnum, InputState)> {
    match ev {
        WindowInput::Keyboard { key, pressed } => seq![
            (InputEnum::KeyboardButton(key), InputState::digital_spec(pressed)),
        ],
        WindowInput::MouseClick { button, pressed } => seq![
            (InputEnum::MouseButton(button), InputState::digital_spec(pressed)),
        ],
        WindowInput::Wheel { dx, dy } => seq![
            (InputEnum::MouseAxis(MouseAxis::WheelDeltaX), dx),
            (InputEnum::MouseAxis(MouseAxis::WheelDeltaY), dy),
        ],
        WindowInput::CursorMoved { x, y } => seq![
            (InputEnum::MouseAxis(MouseAxis::PositionX), x),
            (InputEnum::MouseAxis(MouseAxis::PositionY), y),
        ],
        WindowInput::MouseMotion { dx, dy } => seq![
            (InputEnum::MouseAxis(MouseAxis::PositionDeltaX), dx),
            (InputEnum::MouseAxis(MouseAxis::PositionDeltaY), dy),
        ],
        WindowInput::CloseRequested => Seq::empty(),
        WindowInput::Other => Seq::empty(),
    }
}

/// Whether the push path notifies listeners for this event: single-key
/// writes do; the batch writes of the axis pairs do not.
pub open spec fn push_notifies(ev: WindowInput) -> bool {
    match ev {
        WindowInput::Keyboard { .. } => true,
        WindowInput::MouseClick { .. } => true,
        _ => false,
    }
}

/// What a sequence of writes, applied in order, leaves for the control `e`:
/// the value beside the last write of `e`, or `dflt` where none writes it.
pub open spec fn applied(
    writes: Seq<(InputEnum, InputState)>,
    e: InputEnum,
    dflt: InputState,
) -> InputState
    decreases writes.len(),
{
    if writes.len() == 0 {
        dflt
    } else if writes.last().0 == e {
        writes.last().1
    } else {
        applied(writes.drop_last(), e, dflt)
    }
}

/// Of a sequence of single-key writes, the notifications that category
/// `c`'s observers receive, in order: one per write into `c`, carrying the
/// written identifier and state.
pub open spec fn notices_for(writes: Seq<(InputEnum, InputState)>, c: Category) -> Seq<
    (InputEnum, InputState),
>
    decreases writes.len(),
{
    if writes.len() == 0 {
        Seq::empty()
    } else if writes.last().0.category() == c {
        notices_for(writes.drop_last(), c).push(writes.last())
    } else {
        notices_for(writes.drop_last(), c)
    }
}

/// The notifications the push path sends to category `c` for one event.
pub open spec fn push_notices(ev: WindowInput, c: Category) -> Seq<(InputEnum, InputState)> {
    if push_notifies(ev) {
        notices_for(push_writes(ev), c)
    } else {
        Seq::empty()
    }
}

/// All writes one ingestion call performs: the push path's writes for the
/// window event, then — where draining is armed — one write per drained
/// gamepad event, in arrival order.
pub open spec fn event_writes(ev: WindowInput, pending: Seq<GamepadInput>, armed: bool) -> Seq<
    (InputEnum, InputState),
> {
    push_writes(ev) + if armed {
        gamepad_writes(pending)
    } else {
        Seq::empty()
    }
}

/// The notifications category `c` receives from one ingestion call: the
/// push path notifies its single-key writes only, and every drained
/// gamepad event notifies.
pub open spec fn event_notices(
    ev: WindowInput,
    pending: Seq<GamepadInput>,
    armed: bool,
    c: Category,
) -> Seq<(InputEnum, InputState)> {
    push_notices(ev, c) + if armed {
        notices_for(gamepad_writes(pending), c)
    } else {
        Seq::empty()
    }
}

/// One more write at the end overwrites its own control and nothing else.
pub proof fn lemma_applied_push(
    writes: Seq<(InputEnum, InputState)>,
    w: (InputEnum, InputState),
    e: InputEnum,
    dflt: InputState,
)
    ensures
        applied(writes.push(w), e, dflt) == if w.0 == e {
            w.1
        } else {
            applied(writes, e, dflt)
        },
{
    assert(writes.push(w).drop_last() =~= writes);
}

/// What two writes, applied in order, leave for each control.
pub proof fn lemma_applied_pair(
    w1: (InputEnum, InputState),
    w2: (InputEnum, InputState),
    e: InputEnum,
    dflt: InputState,
)
    ensures
        applied(seq![w1, w2], e, dflt) == if e == w2.0 {
            w2.1
        } else if e == w1.0 {
            w1.1
        } else {
            dflt
        },
{
    assert(seq![w1, w2] =~= Seq::<(InputEnum, InputState)>::empty().push(w1).push(w2));
    lemma_applied_push(Seq::<(InputEnum, InputState)>::empty().push(w1), w2, e, dflt);
    lemma_applied_push(Seq::<(InputEnum, InputState)>::empty(), w1, e, dflt);
}

/// Writes apply left to right: a concatenation applies its second part to
/// what its first part left behind.
pub proof fn lemma_applied_concat(
    a: Seq<(InputEnum, InputState)>,
    b: Seq<(InputEnum, InputState)>,
    e: InputEnum,
    dflt: InputState,
)
    ensures
        applied(a + b, e, dflt) == applied(b, e, applied(a, e, dflt)),
    decreases b.len(),
{
    if b.len() == 0 {
        assert(a + b =~= a);
    } else {
        assert((a + b).drop_last() =~= a + b.drop_last());
        assert((a + b).last() == b.last());
        lemma_applied_concat(a, b.drop_last(), e, dflt);
    }
}

/// One more write at the end notifies its own category once and no other.
pub proof fn lemma_notices_push(
    writes: Seq<(InputEnum, InputState)>,
    w: (InputEnum, InputState),
    c: Category,
)
    ensures
        notices_for(writes.push(w), c) == if w.0.category() == c {
            notices_for(writes, c).push(w)
        } else {
            notices_for(writes, c)
        },
{
    assert(writes.push(w).drop_last() =~= writes);
}

} // verus!
