//! What a key does when it is pressed.
//!
//! A [`Button`](crate::config::Button) carries an [`Action`]. When a key goes
//! down, the session looks up that key's button and asks the action for the
//! step to carry out: nothing, launching a program, or tapping a key combo on
//! the virtual keyboard. Carrying the step out is the caller's I/O.

use crate::keyboard::{is_combo_resolution, parse_combo, KeyboardError};
use evdev::KeyCode;
use vstd::prelude::*;

verus! {

/// The behaviour bound to a key.
#[derive(Debug, Clone, PartialEq, Eq)]
pub enum Action {
    /// The key shows its label but does nothing when pressed.
    Noop,
    /// Launch an external program with the given arguments.
    RunCommand {
        /// The executable to run, resolved against `PATH`.
        program: String,
        /// Arguments passed verbatim to the program.
        args: Vec<String>,
    },
    /// Inject a keyboard shortcut into whatever window has focus.
    Hotkey {
        /// The key names making up the combo, e.g. `["ctrl", "shift", "m"]`.
        /// Matched case-insensitively against the key table.
        keys: Vec<String>,
    },
}

impl Default for Action {
    /// A key does nothing unless told otherwise.
    fn default() -> (r: Self)
        ensures
            r == Action::Noop,
    {
        Action::Noop
    }
}

/// A failure while carrying out an [`Action`].
#[derive(Debug)]
pub enum ActionError {
    /// The program could not be launched (not found, not executable…).
    Spawn {
        /// The program we tried to run.
        program: String,
        /// The underlying OS error.
        source: std::io::Error,
    },
    /// A hotkey was triggered but no virtual keyboard is available.
    NoKeyboard,
    /// The virtual keyboard rejected or failed to inject the hotkey.
    Keyboard(KeyboardError),
}

/// The concrete step an action asks for.
#[derive(Debug)]
pub enum ActionStep<'a> {
    /// Nothing to do.
    Nothing,
    /// Launch `program` with `args`, detached from our stdio.
    Launch {
        /// The executable to run.
        program: &'a String,
        /// Its arguments.
        args: &'a Vec<String>,
    },
    /// Press the keys in order, then release them in reverse order.
    Tap(Vec<KeyCode>),
}

impl Action {
    /// The step that carrying out this action takes.
    ///
    /// [`Action::Noop`] is always a no-op. A [`Action::Hotkey`] needs the
    /// session's virtual keyboard: without one it fails with
    /// [`ActionError::NoKeyboard`] rather than silently doing nothing, and
    /// with one it resolves its key names, failing on the first unknown one.
    pub fn plan(&self, keyboard_available: bool) -> (r: Result<ActionStep<'_>, ActionError>)
        ensures
            match self {
                Action::Noop => r matches Ok(ActionStep::Nothing),
                Action::RunCommand { program, args } => r matches Ok(
                    ActionStep::Launch { program: p, args: a },
                ) && *p == *program && *a == *args,
                Action::Hotkey { keys } => if !keyboard_available {
                    r matches Err(ActionError::NoKeyboard)
                } else {
                    match r {
                        Ok(ActionStep::Tap(v)) => is_combo_resolution(keys@, Ok(v)),
                        Err(ActionError::Keyboard(e)) => is_combo_resolution(keys@, Err(e)),
                        _ => false,
                    }
                },
            },
    {
        match self {
            Action::Noop => Ok(ActionStep::Nothing),
            Action::RunCommand { program, args } => Ok(ActionStep::Launch { program, args }),
            Action::Hotkey { keys } => {
                if !keyboard_available {
                    return Err(ActionError::NoKeyboard);
                }
                match parse_combo(keys.as_slice()) {
                    Ok(combo) => Ok(ActionStep::Tap(combo)),
                    Err(e) => Err(ActionError::Keyboard(e)),
                }
            },
        }
    }
}

} // verus!
