//! The screens of the wizard and the entries of its menu.

use vstd::prelude::*;

verus! {

/// The screen that the wizard shows. Exactly one is active at a time.
#[derive(Clone, Debug, PartialEq, Eq)]
pub enum AppState {
    /// The credential for the registry is asked for.
    RegistrySetup,
    /// The main menu.
    Confirmation,
    /// The form for the API keys.
    EnvSetup,
    /// The list of configuration templates.
    ConfigSelection,
    /// The list of tracked artifacts and their updates.
    UpdateList,
    /// An image is being pulled.
    UpdatePulling,
    /// The stack is being built and started.
    Installing,
    /// The installation has succeeded.
    Success,
    /// An operation has failed; the text says how. Only the operator's exit leaves this screen.
    Error(String),
}

/// An entry of the main menu.
#[derive(Clone, Copy, Debug, PartialEq, Eq, Structural)]
pub enum MenuSelection {
    /// Build and start the stack.
    Proceed,
    /// Fill in the API keys and write the environment file.
    GenerateEnv,
    /// Choose a configuration template and write the configuration file.
    GenerateConfig,
    /// Ask the registry for newer artifacts.
    CheckUpdates,
    /// Enter another credential for the registry.
    UpdateToken,
    /// Leave the wizard.
    Cancel,
}

/// A key on the keyboard, as far as the wizard tells keys apart.
#[derive(Clone, Copy, Debug, PartialEq, Eq, Structural)]
pub enum Key {
    Up,
    Down,
    Tab,
    Enter,
    Esc,
    Backspace,
    Char(char),
    /// Any key that the wizard has no use for.
    Other,
}

/// One press of a key.
#[derive(Clone, Copy, Debug, PartialEq, Eq, Structural)]
pub struct KeyPress {
    pub key: Key,
    /// Whether Ctrl was held down.
    pub ctrl: bool,
}

impl KeyPress {
    /// Whether this is Ctrl+C, the force-quit shortcut.
    pub open spec fn is_force_quit(&self) -> bool {
        self.ctrl && self.key == Key::Char('c')
    }

    /// Whether this is Ctrl+C, the force-quit shortcut.
    pub fn force_quit(&self) -> (r: bool)
        ensures
            r == self.is_force_quit(),
    {
        match self.key {
            Key::Char(c) => self.ctrl && c == 'c',
            _ => false,
        }
    }
}

} // verus!
