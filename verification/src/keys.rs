//! Key bindings: what each key does on each screen.

use vstd::prelude::*;
use crate::app::App;
use crate::form::{AppState, FormState};

verus! {

/// A key press, reduced to the keys that are bound; every other key is
/// `Other`.
#[derive(Clone, Copy, Debug, PartialEq, Eq, Structural)]
pub enum Key {
    Esc,
    Enter,
    Left,
    Right,
    Tab,
    Backspace,
    Char(char),
    Other,
}

/// What is left for the event loop to do once a key has been handled.
#[derive(Clone, Copy, Debug, PartialEq, Eq, Structural)]
pub enum Outcome {
    /// Read the next key.
    Continue,
    /// Read both buffers as numbers and hand the measurement to
    /// `App::calculate`.
    Measure,
    /// Leave the event loop.
    Quit,
}

impl Key {
    /// Escape and the letter `q` quit, on either screen.
    pub open spec fn quits(self) -> bool {
        self == Key::Esc || self == Key::Char('q')
    }

    /// The arrow keys and the tabulator move the focus.
    pub open spec fn navigates(self) -> bool {
        self == Key::Left || self == Key::Right || self == Key::Tab
    }

    /// Enter and the space bar leave the result screen.
    pub open spec fn dismisses(self) -> bool {
        self == Key::Enter || self == Key::Char(' ')
    }
}

impl FormState {
    /// The state after a key press. On the input screen the navigation keys
    /// switch the focus, backspace deletes and a character other than `q` is
    /// offered to the focused buffer; on the result screen Enter and space
    /// reset. Every other key leaves the state as it is.
    pub open spec fn press(self, key: Key) -> FormState {
        match self.screen {
            AppState::Input => match key {
                Key::Left | Key::Right | Key::Tab => self.switch_field(),
                Key::Backspace => self.handle_backspace(),
                Key::Char(c) => if c == 'q' {
                    self
                } else {
                    self.handle_input(c)
                },
                _ => self,
            },
            AppState::Result => if key.dismisses() {
                self.reset()
            } else {
                self
            },
        }
    }

    /// What the event loop does after a key press on the given screen: quit
    /// on a quitting key, measure on Enter while the input screen is shown,
    /// and otherwise go on.
    pub open spec fn outcome(screen: AppState, key: Key) -> Outcome {
        if key.quits() {
            Outcome::Quit
        } else if screen == AppState::Input && key == Key::Enter {
            Outcome::Measure
        } else {
            Outcome::Continue
        }
    }
}

impl App {
    /// Applies a key press to the state and tells the event loop what to do
    /// next.
    pub fn handle_key(&mut self, key: Key) -> (next: Outcome)
        ensures
            final(self)@ == old(self)@.press(key),
            next == FormState::outcome(old(self)@.screen, key),
            next != Outcome::Continue ==> final(self)@ == old(self)@,
            old(self)@.wf() ==> final(self)@.wf(),
    {
        match self.state {
            AppState::Input => match key {
                Key::Esc => Outcome::Quit,
                Key::Enter => Outcome::Measure,
                Key::Left | Key::Right | Key::Tab => {
                    self.switch_field();
                    Outcome::Continue
                },
                Key::Backspace => {
                    self.handle_backspace();
                    Outcome::Continue
                },
                Key::Char(c) => {
                    if c == 'q' {
                        Outcome::Quit
                    } else {
                        self.handle_input(c);
                        Outcome::Continue
                    }
                },
                Key::Other => Outcome::Continue,
            },
            AppState::Result => match key {
                Key::Esc => Outcome::Quit,
                Key::Enter => {
                    self.reset();
                    Outcome::Continue
                },
                Key::Char(c) => {
                    if c == 'q' {
                        Outcome::Quit
                    } else if c == ' ' {
                        self.reset();
                        Outcome::Continue
                    } else {
                        Outcome::Continue
                    }
                },
                _ => Outcome::Continue,
            },
        }
    }
}

} // verus!
