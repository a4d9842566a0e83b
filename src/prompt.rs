//! The user-side half of the password handshake.
//!
//! The server asks for a password, checks it, and either asks again or tells
//! the prompt to close. The prompt learns that an attempt was wrong from the
//! next request arriving before any confirmation.

use vstd::prelude::*;
use crate::secret::Password;

verus! {

/// Tracks whether the last password handed to the server awaits its verdict.
#[derive(Clone, Copy, Debug, PartialEq, Eq, Structural)]
pub struct PasswordPrompt {
    waiting: bool,
}

impl PasswordPrompt {
    /// Whether a known password was handed over and no verdict came yet.
    pub closed spec fn view(&self) -> bool {
        self.waiting
    }

    /// A prompt with nothing pending.
    pub fn new() -> (r: Self)
        ensures
            !r.view(),
    {
        PasswordPrompt { waiting: false }
    }

    /// The server asks for a password. Returns whether the user must first be
    /// told to retry: exactly when the previous known password got no verdict,
    /// which means it was wrong.
    pub fn request(&self) -> (r: bool)
        ensures
            r == self.view(),
    {
        self.waiting
    }

    /// The user's answer was handed to the server: a verdict is awaited
    /// exactly when the password was known.
    pub fn answered(&mut self, password: &Password)
        ensures
            final(self).view() == (password.view() is Some),
    {
        self.waiting = password.is_known();
    }

    /// The server accepted the password and closed the round.
    pub fn validated(&mut self)
        ensures
            !final(self).view(),
    {
        self.waiting = false;
    }
}

} // verus!
