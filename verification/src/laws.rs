//! What holds of the operations, proved over the model.

use vstd::prelude::*;
use crate::field::accepts;
use crate::form::{AppState, CalculationResult, FormState};
use crate::keys::{Key, Outcome};

verus! {

/// One of the five operations that change the state.
pub enum Operation {
    SwitchField,
    Input(char),
    Backspace,
    Calculate(Option<CalculationResult>),
    Reset,
}

impl FormState {
    /// The state after one operation.
    pub open spec fn step(self, op: Operation) -> FormState {
        match op {
            Operation::SwitchField => self.switch_field(),
            Operation::Input(c) => self.handle_input(c),
            Operation::Backspace => self.handle_backspace(),
            Operation::Calculate(measured) => self.calculate(measured),
            Operation::Reset => self.reset(),
        }
    }

    /// The state after a sequence of operations, applied first to last.
    pub open spec fn run(self, ops: Seq<Operation>) -> FormState
        decreases ops.len(),
    {
        if ops.len() == 0 {
            self
        } else {
            self.run(ops.drop_last()).step(ops.last())
        }
    }
}

/// A character is appended to the focused buffer exactly when it is a digit,
/// the decimal point or the minus sign; any other character leaves the whole
/// state unchanged. The other buffer is never touched.
pub proof fn lemma_input_filter(s: FormState, c: char)
    ensures
        accepts(c) <==> s.handle_input(c).focused() == s.focused().push(c),
        !accepts(c) ==> s.handle_input(c) == s,
        s.handle_input(c).unfocused() == s.unfocused(),
{
    assert(s.focused().push(c).len() == s.focused().len() + 1);
}

/// Backspace on an empty focused buffer changes nothing, however often it is
/// repeated.
pub proof fn lemma_backspace_on_empty(s: FormState)
    requires
        s.focused().len() == 0,
    ensures
        s.handle_backspace() == s,
        s.handle_backspace().handle_backspace() == s,
{
}

/// Backspace takes back the character that was just accepted.
pub proof fn lemma_backspace_undoes_input(s: FormState, c: char)
    requires
        accepts(c),
    ensures
        s.handle_input(c).handle_backspace() == s,
{
    assert(s.focused().push(c).drop_last() =~= s.focused());
}

/// Switching the focus twice brings back the state it started from.
pub proof fn lemma_switch_field_involution(s: FormState)
    ensures
        s.switch_field().switch_field() == s,
        s.switch_field().focus != s.focus,
{
}

/// Reset gives the same state from every state, and a second reset changes
/// nothing.
pub proof fn lemma_reset_forgets(s: FormState, t: FormState)
    ensures
        s.reset() == t.reset(),
        s.reset() == FormState::initial(),
        s.reset().reset() == s.reset(),
{
}

/// A calculation changes nothing when a buffer was not a number, and nothing
/// when the height read is zero, negative or not a number.
pub proof fn lemma_calculate_rejects(s: FormState, measured: Option<CalculationResult>)
    requires
        measured matches Some(m) ==> m.height.is_zero() || m.height.sign() || m.height.is_nan(),
    ensures
        s.calculate(measured) == s,
{
}

/// An accepted calculation stores the measurement as it was given, shows the
/// result screen and leaves buffers and focus alone.
pub proof fn lemma_calculate_accepts(s: FormState, m: CalculationResult)
    requires
        m.height.positive(),
    ensures
        s.calculate(Some(m)).result == Some(m),
        s.calculate(Some(m)).screen == AppState::Result,
        s.calculate(Some(m)).height == s.height,
        s.calculate(Some(m)).velocity == s.velocity,
        s.calculate(Some(m)).focus == s.focus,
{
}

/// Every operation keeps the invariant that a result is held exactly while
/// the result screen is shown.
pub proof fn lemma_step_keeps_wf(s: FormState, op: Operation)
    requires
        s.wf(),
    ensures
        s.step(op).wf(),
{
}

/// The invariant holds after any sequence of operations from a state in
/// which it holds.
pub proof fn lemma_run_keeps_wf(s: FormState, ops: Seq<Operation>)
    requires
        s.wf(),
    ensures
        s.run(ops).wf(),
    decreases ops.len(),
{
    if ops.len() > 0 {
        lemma_run_keeps_wf(s, ops.drop_last());
        lemma_step_keeps_wf(s.run(ops.drop_last()), ops.last());
    }
}

/// The invariant holds in every state that can be reached from the initial
/// one.
pub proof fn lemma_reachable_wf(ops: Seq<Operation>)
    ensures
        FormState::initial().run(ops).wf(),
{
    lemma_run_keeps_wf(FormState::initial(), ops);
}

/// The only way onto the result screen is an accepted calculation, and the
/// only way off it is a reset.
pub proof fn lemma_screen_changes(s: FormState, op: Operation)
    ensures
        s.screen == AppState::Input && s.step(op).screen == AppState::Result
            ==> (op matches Operation::Calculate(measured) && FormState::admits(measured)),
        s.screen == AppState::Result && s.step(op).screen == AppState::Input
            ==> op == Operation::Reset,
{
}

/// A key press does at most one operation, never a calculation, and keeps
/// the invariant. On the result screen the state stays or is reset; a key
/// that ends the loop or asks for a measurement changes nothing.
pub proof fn lemma_press_is_step(s: FormState, key: Key)
    ensures
        s.press(key) == s || exists|op: Operation|
            !(op is Calculate) && #[trigger] s.step(op) == s.press(key),
        s.wf() ==> s.press(key).wf(),
        s.screen == AppState::Result ==> s.press(key) == s || s.press(key) == FormState::initial(),
        s.screen == AppState::Input ==> s.press(key).screen == AppState::Input,
        FormState::outcome(s.screen, key) != Outcome::Continue ==> s.press(key) == s,
{
    if s.press(key) != s {
        match s.screen {
            AppState::Input => match key {
                Key::Left | Key::Right | Key::Tab => {
                    assert(s.step(Operation::SwitchField) == s.press(key));
                },
                Key::Backspace => {
                    assert(s.step(Operation::Backspace) == s.press(key));
                },
                Key::Char(c) => {
                    assert(s.step(Operation::Input(c)) == s.press(key));
                },
                _ => {},
            },
            AppState::Result => {
                assert(s.step(Operation::Reset) == s.press(key));
            },
        }
    }
}

} // verus!
