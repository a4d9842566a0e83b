//! Flags the hosting shell keeps about the signer.

use vstd::prelude::*;

verus! {

/// Flags of the hosting shell.
#[derive(Debug)]
pub struct AppState {
    /// The user interface is connected
    pub ui_connected: bool,
    /// The user has logged in and the signer is running
    pub ready: bool,
    /// An authorization prompt is showing
    pub authorizing: bool,
}

impl AppState {
    /// All flags cleared.
    pub fn new() -> (r: Self)
        ensures
            !r.ui_connected && !r.ready && !r.authorizing,
    {
        AppState { ui_connected: false, ready: false, authorizing: false }
    }

    /// Returns the connection status of the user interface.
    pub fn get_ui_connected(&self) -> (r: bool)
        ensures
            r == self.ui_connected,
    {
        self.ui_connected
    }

    /// Sets the connection status of the user interface.
    pub fn set_ui_connected(&mut self, ui_connected: bool)
        ensures
            *final(self) == (AppState { ui_connected, ..*old(self) }),
    {
        self.ui_connected = ui_connected;
    }

    /// Returns the ready status.
    pub fn get_ready(&self) -> (r: bool)
        ensures
            r == self.ready,
    {
        self.ready
    }

    /// Sets the ready status.
    pub fn set_ready(&mut self, ready: bool)
        ensures
            *final(self) == (AppState { ready, ..*old(self) }),
    {
        self.ready = ready;
    }

    /// Returns the authorizing status.
    pub fn get_authorizing(&self) -> (r: bool)
        ensures
            r == self.authorizing,
    {
        self.authorizing
    }

    /// Sets the authorizing status.
    pub fn set_authorizing(&mut self, authorizing: bool)
        ensures
            *final(self) == (AppState { authorizing, ..*old(self) }),
    {
        self.authorizing = authorizing;
    }
}

} // verus!
