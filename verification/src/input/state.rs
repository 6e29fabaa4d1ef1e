//! The scalar state of a single control.

use vstd::prelude::*;

verus! {

/// Bit pattern of the IEEE 754 single-precision encoding of one.
pub const ONE_BITS: u32 = 0x3F80_0000;

/// Bit pattern of the IEEE 754 single-precision encoding of negative zero.
pub const NEGATIVE_ZERO_BITS: u32 = 0x8000_0000;

/// The current state of a single control, carried as the IEEE 754
/// single-precision bit pattern of the scalar the control reports.
///
/// Digital controls hold the encoding of zero (released) or of one
/// (pressed); analog controls hold the encoding of a continuous value. The
/// store itself never does arithmetic on the scalar: it only stores bit
/// patterns and compares them against zero, so it is exact about every
/// value, including the two zero encodings and non-finite payloads.
#[derive(Clone, Copy, Debug, PartialEq, Eq, Hash, Structural)]
pub struct InputState {
    /// The IEEE 754 single-precision bit pattern.
    pub bits: u32,
}

impl InputState {
    /// A state counts as set when the scalar it encodes is not numerically
    /// zero. Both zero encodings (positive and negative) compare equal to
    /// zero, so neither counts as set; every other pattern does.
    pub open spec fn is_set_spec(self) -> bool {
        self.bits != 0u32 && self.bits != NEGATIVE_ZERO_BITS
    }

    /// The default state of every control that was never written.
    pub open spec fn unset() -> InputState {
        InputState { bits: 0u32 }
    }

    /// The state a digital control reports while released.
    pub fn zero() -> (r: InputState)
        ensures
            r == InputState::unset(),
    {
        InputState { bits: 0u32 }
    }

    /// The state a digital control reports while pressed.
    pub fn one() -> (r: InputState)
        ensures
            r == (InputState { bits: ONE_BITS }),
    {
        InputState { bits: ONE_BITS }
    }

    /// The state a digital control reports for the given pressed flag.
    pub open spec fn digital_spec(pressed: bool) -> InputState {
        if pressed {
            InputState { bits: ONE_BITS }
        } else {
            InputState::unset()
        }
    }

    /// The state a digital control reports for the given pressed flag.
    pub fn digital(pressed: bool) -> (r: InputState)
        ensures
            r == InputState::digital_spec(pressed),
            r.is_set_spec() == pressed,
    {
        if pressed {
            InputState::one()
        } else {
            InputState::zero()
        }
    }

    /// Whether the scalar is not numerically zero.
    pub fn is_set(&self) -> (r: bool)
        ensures
            r == self.is_set_spec(),
    {
        self.bits != 0u32 && self.bits != NEGATIVE_ZERO_BITS
    }
}

impl Default for InputState {
    /// The default state is unset.
    fn default() -> (r: Self)
        ensures
            r == InputState::unset(),
    {
        InputState { bits: 0u32 }
    }
}

/// The default state of a control never counts as set.
pub proof fn lemma_unset_is_not_set()
    ensures
        !InputState::unset().is_set_spec(),
{
}

} // verus!
