//! From a key to the action bound to it.

use vstd::prelude::*;

verus! {

/// What a key press asks for.
#[derive(Debug, Clone, Copy, PartialEq, Eq, Structural)]
pub enum Action {
    Quit,
    TogglePause,
    Reset,
    Skip,
    ToggleHelp,
    Nothing,
}

/// The key that was pressed, as far as the bindings tell keys apart.
#[derive(Debug, Clone, Copy, PartialEq, Eq, Structural)]
pub enum Key {
    /// A key that gives a character.
    Char(char),
    /// The escape key.
    Esc,
    /// Any other key.
    Other,
}

/// A key together with the state of the control modifier.
#[derive(Debug, Clone, Copy, PartialEq, Eq, Structural)]
pub struct KeyInput {
    pub code: Key,
    pub control: bool,
}

/// The bindings: `q`, escape and control-`c` quit; space and `p` start or
/// pause; `r` resets; `s` skips; `h` and `?` show or hide the help. Letters
/// are bound in both cases; control-`C` with a capital is not bound.
pub open spec fn action_for(key: KeyInput) -> Action {
    match key.code {
        Key::Esc => Action::Quit,
        Key::Other => Action::Nothing,
        Key::Char(c) => if c == 'q' || c == 'Q' {
            Action::Quit
        } else if c == ' ' || c == 'p' || c == 'P' {
            Action::TogglePause
        } else if c == 'r' || c == 'R' {
            Action::Reset
        } else if c == 's' || c == 'S' {
            Action::Skip
        } else if c == 'h' || c == 'H' || c == '?' {
            Action::ToggleHelp
        } else if c == 'c' && key.control {
            Action::Quit
        } else {
            Action::Nothing
        },
    }
}

pub fn handle_key(key: KeyInput) -> (action: Action)
    ensures
        action == action_for(key),
{
    match key.code {
        Key::Char('q') | Key::Char('Q') => Action::Quit,
        Key::Esc => Action::Quit,
        Key::Char(' ') | Key::Char('p') | Key::Char('P') => Action::TogglePause,
        Key::Char('r') | Key::Char('R') => Action::Reset,
        Key::Char('s') | Key::Char('S') => Action::Skip,
        Key::Char('h') | Key::Char('H') | Key::Char('?') => Action::ToggleHelp,
        Key::Char('c') if key.control => Action::Quit,
        _ => Action::Nothing,
    }
}

} // verus!
