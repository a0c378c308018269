//! The form on which the operator enters the credential for the registry.

use vstd::prelude::*;
use vstd::string::*;
use crate::text::{blank, is_blank};

verus! {

/// What the operator has entered, and where the cursor stands: on the token
/// (item 0) or on the submit button (item 1).
#[derive(Debug, Default)]
pub struct RegistryForm {
    pub token: String,
    pub current_field: usize,
    pub editing: bool,
    pub error_message: String,
}

/// The message shown when no token was entered.
pub open spec fn token_required() -> Seq<char> {
    "Personal access token is required"@
}

impl RegistryForm {
    /// An empty form with the cursor on the token.
    pub fn new() -> (form: RegistryForm)
        ensures
            form.token@.len() == 0,
            form.current_field == 0,
            !form.editing,
            form.error_message@.len() == 0,
    {
        RegistryForm {
            token: String::new(),
            current_field: 0,
            editing: false,
            error_message: String::new(),
        }
    }

    /// Number of items on the form: the token, and the submit button.
    pub fn total_items(&self) -> (n: usize)
        ensures
            n == 2,
    {
        2
    }

    /// Whether item `index` takes text.
    pub fn is_input_field(index: usize) -> (r: bool)
        ensures
            r == (index == 0),
    {
        index == 0
    }

    /// The text that the cursor stands on: the token.
    pub fn get_current_value_mut(&mut self) -> (value: &mut String)
        ensures
            *value == old(self).token,
            final(self).token == *final(value),
            final(self).current_field == old(self).current_field,
            final(self).editing == old(self).editing,
            final(self).error_message == old(self).error_message,
    {
        &mut self.token
    }

    /// Checks the form: a token that is empty or white space only is turned
    /// down with a message; otherwise the message is emptied.
    pub fn validate(&mut self) -> (ok: bool)
        ensures
            ok == !is_blank(old(self).token@),
            final(self).error_message@ == (if ok {
                Seq::empty()
            } else {
                token_required()
            }),
            final(self).token == old(self).token,
            final(self).current_field == old(self).current_field,
            final(self).editing == old(self).editing,
    {
        if blank(self.token.as_str()) {
            self.error_message = String::from_str("Personal access token is required");
            return false;
        }
        self.error_message = String::new();
        true
    }
}

} // verus!
