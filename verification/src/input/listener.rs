//! Observers notified synchronously when a control's state changes.

use vstd::prelude::*;

use crate::input::idents::InputEnum;
use crate::input::state::InputState;

verus! {

/// An observer of state changes. Registering one for a category makes every
/// single-key write to that category deliver one notification to it,
/// synchronously, before the write returns.
///
/// The trait models what an observer has received as a trace: `hear` must
/// extend the trace by exactly the notification delivered, so contracts all
/// over the store can say precisely which notifications a write triggers.
pub trait Listener: Sized {
    /// The notifications this observer has received so far, oldest first.
    spec fn heard(self) -> Seq<(InputEnum, InputState)>;

    /// Receives one notification: the control `input` now reports `state`.
    fn hear(&mut self, input: InputEnum, state: InputState)
        ensures
            final(self).heard() == old(self).heard().push((input, state)),
    ;
}

/// An observer that simply keeps every notification it receives, in order.
pub struct RecordingListener {
    /// The notifications received, oldest first.
    pub seen: Vec<(InputEnum, InputState)>,
}

impl RecordingListener {
    /// A fresh observer that has heard nothing.
    pub fn new() -> (r: RecordingListener)
        ensures
            r.heard() == Seq::<(InputEnum, InputState)>::empty(),
    {
        RecordingListener { seen: Vec::new() }
    }
}

impl Listener for RecordingListener {
    open spec fn heard(self) -> Seq<(InputEnum, InputState)> {
        self.seen@
    }

    fn hear(&mut self, input: InputEnum, state: InputState) {
        self.seen.push((input, state));
    }
}

} // verus!
