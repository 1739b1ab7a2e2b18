//! The mathematical model of the calculator: a value of `FormState` is what
//! the application holds at one moment, and each operation is a function from
//! one such value to the next.

use vstd::prelude::*;
use crate::field::{accepts, InputField};
use crate::number::Binary64;

verus! {

/// Which of the two views is shown.
#[derive(Clone, Copy, Debug, PartialEq, Eq, Structural)]
pub enum AppState {
    Input,
    Result,
}

/// The three values shown on the result screen, fixed at the moment a
/// calculation is accepted.
#[derive(Clone, Copy, Debug, PartialEq, Eq, Structural)]
pub struct CalculationResult {
    pub velocity: Binary64,
    pub height: Binary64,
    pub gravity: Binary64,
}

/// The state of the calculator, with each text buffer as the sequence of its
/// characters.
pub struct FormState {
    pub height: Seq<char>,
    pub velocity: Seq<char>,
    pub focus: InputField,
    pub screen: AppState,
    pub result: Option<CalculationResult>,
}

impl FormState {
    /// The state at start-up and after every reset: both buffers empty, the
    /// height field focused, the input screen shown, no result.
    pub open spec fn initial() -> FormState {
        FormState {
            height: Seq::<char>::empty(),
            velocity: Seq::<char>::empty(),
            focus: InputField::Height,
            screen: AppState::Input,
            result: None,
        }
    }

    /// A result is held exactly while the result screen is shown.
    pub open spec fn wf(self) -> bool {
        self.result.is_some() <==> self.screen == AppState::Result
    }

    /// The buffer that receives keystrokes.
    pub open spec fn focused(self) -> Seq<char> {
        match self.focus {
            InputField::Height => self.height,
            InputField::Velocity => self.velocity,
        }
    }

    /// The buffer that does not receive keystrokes.
    pub open spec fn unfocused(self) -> Seq<char> {
        match self.focus {
            InputField::Height => self.velocity,
            InputField::Velocity => self.height,
        }
    }

    /// The same state with `text` in place of the focused buffer.
    pub open spec fn with_focused(self, text: Seq<char>) -> FormState {
        match self.focus {
            InputField::Height => FormState { height: text, ..self },
            InputField::Velocity => FormState { velocity: text, ..self },
        }
    }

    /// The focus moves to the other field; nothing else changes.
    pub open spec fn switch_field(self) -> FormState {
        FormState { focus: self.focus.other(), ..self }
    }

    /// An accepted character is appended to the focused buffer; any other
    /// character changes nothing.
    pub open spec fn handle_input(self, c: char) -> FormState {
        if accepts(c) {
            self.with_focused(self.focused().push(c))
        } else {
            self
        }
    }

    /// The focused buffer loses its last character, if it has one.
    pub open spec fn handle_backspace(self) -> FormState {
        if self.focused().len() > 0 {
            self.with_focused(self.focused().drop_last())
        } else {
            self
        }
    }

    /// Whether a measurement is taken up: both buffers were read as
    /// numbers, and the height read is greater than zero.
    pub open spec fn admits(measured: Option<CalculationResult>) -> bool {
        measured matches Some(m) && m.height.positive()
    }

    /// An admitted measurement becomes the result and the result screen is
    /// shown; anything else changes nothing.
    pub open spec fn calculate(self, measured: Option<CalculationResult>) -> FormState {
        if Self::admits(measured) {
            FormState { screen: AppState::Result, result: measured, ..self }
        } else {
            self
        }
    }

    /// Every state resets to the initial one.
    pub open spec fn reset(self) -> FormState {
        Self::initial()
    }
}

} // verus!
