//! The calculator's state and the operations that change it.

use vstd::prelude::*;
use crate::field::{accepts, accepts_char, InputField};
use crate::form::{AppState, CalculationResult, FormState};

verus! {

/// The calculator: two text buffers, the focused field, the screen shown
/// and, on the result screen, the values of the last calculation.
pub struct App {
    pub height_input: String,
    pub velocity_input: String,
    pub selected_field: InputField,
    pub state: AppState,
    pub result: Option<CalculationResult>,
}

impl View for App {
    type V = FormState;

    open spec fn view(&self) -> FormState {
        FormState {
            height: self.height_input@,
            velocity: self.velocity_input@,
            focus: self.selected_field,
            screen: self.state,
            result: self.result,
        }
    }
}

impl App {
    /// A calculator in its initial state.
    pub fn new() -> (app: App)
        ensures
            app@ == FormState::initial(),
            app@.wf(),
    {
        App {
            height_input: String::new(),
            velocity_input: String::new(),
            selected_field: InputField::Height,
            state: AppState::Input,
            result: None,
        }
    }

    /// Moves the focus to the other field.
    pub fn switch_field(&mut self)
        ensures
            final(self)@ == old(self)@.switch_field(),
            final(self)@.focus != old(self)@.focus,
            old(self)@.wf() ==> final(self)@.wf(),
    {
        self.selected_field = self.selected_field.toggled();
    }

    /// Appends `c` to the focused buffer if it is a digit, the decimal point
    /// or the minus sign, and ignores it otherwise.
    pub fn handle_input(&mut self, c: char)
        ensures
            final(self)@ == old(self)@.handle_input(c),
            accepts(c) ==> final(self)@.focused() == old(self)@.focused().push(c),
            !accepts(c) ==> final(self)@ == old(self)@,
            final(self)@.unfocused() == old(self)@.unfocused(),
            old(self)@.wf() ==> final(self)@.wf(),
    {
        if accepts_char(c) {
            match self.selected_field {
                InputField::Height => self.height_input.push(c),
                InputField::Velocity => self.velocity_input.push(c),
            }
        }
    }

    /// Removes the last character of the focused buffer; an empty buffer
    /// stays empty.
    pub fn handle_backspace(&mut self)
        ensures
            final(self)@ == old(self)@.handle_backspace(),
            old(self)@.focused().len() == 0 ==> final(self)@ == old(self)@,
            old(self)@.focused().len() > 0
                ==> final(self)@.focused() == old(self)@.focused().drop_last(),
            final(self)@.unfocused() == old(self)@.unfocused(),
            old(self)@.wf() ==> final(self)@.wf(),
    {
        match self.selected_field {
            InputField::Height => {
                self.height_input.pop();
            },
            InputField::Velocity => {
                self.velocity_input.pop();
            },
        }
    }

    /// Takes up a measurement. `measured` is what the two buffers were read
    /// as, with the gravity derived from them, or `None` when either buffer
    /// is not a number. A measurement with a height greater than zero is
    /// stored and the result screen is shown; otherwise nothing changes.
    pub fn calculate(&mut self, measured: Option<CalculationResult>)
        ensures
            final(self)@ == old(self)@.calculate(measured),
            !FormState::admits(measured) ==> final(self)@ == old(self)@,
            FormState::admits(measured)
                ==> final(self)@.result == measured && final(self)@.screen == AppState::Result,
            FormState::admits(measured) ==> final(self)@.wf(),
            old(self)@.wf() ==> final(self)@.wf(),
    {
        if let Some(m) = measured {
            if m.height.is_positive() {
                self.result = Some(m);
                self.state = AppState::Result;
            }
        }
    }

    /// Returns to the initial state, whatever the state was.
    pub fn reset(&mut self)
        ensures
            final(self)@ == FormState::initial(),
            final(self)@.wf(),
    {
        self.height_input.clear();
        self.velocity_input.clear();
        self.selected_field = InputField::Height;
        self.state = AppState::Input;
        self.result = None;
    }
}

} // verus!
