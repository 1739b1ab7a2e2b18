//! The two input fields and the focus that moves between them.

use vstd::prelude::*;

verus! {

/// Which of the two text buffers receives keystrokes.
#[derive(Clone, Copy, Debug, PartialEq, Eq, Structural)]
pub enum InputField {
    Height,
    Velocity,
}

impl InputField {
    /// The field that is not `self`.
    pub open spec fn other(self) -> InputField {
        match self {
            InputField::Height => InputField::Velocity,
            InputField::Velocity => InputField::Height,
        }
    }

    /// Returns the field that is not `self`.
    pub fn toggled(self) -> (r: InputField)
        ensures
            r == self.other(),
    {
        match self {
            InputField::Height => InputField::Velocity,
            InputField::Velocity => InputField::Height,
        }
    }
}

/// Whether a keystroke is kept by a text field: the ten digits `0` to `9`,
/// the decimal point and the minus sign.
pub open spec fn accepts(c: char) -> bool {
    ('0' <= c && c <= '9') || c == '.' || c == '-'
}

/// Decides whether a keystroke is kept by a text field.
pub fn accepts_char(c: char) -> (r: bool)
    ensures
        r == accepts(c),
{
    ('0' <= c && c <= '9') || c == '.' || c == '-'
}

} // verus!
