//! The session manager.
use crate::error::Error;
use crate::session::store::Session;
use vstd::prelude::*;

verus! {

/// Session manager. It keeps no sessions yet: saving does nothing.
#[derive(Debug)]
pub struct SessionManager {}

impl SessionManager {
    /// A new session manager.
    pub fn new() -> (r: Self) {
        SessionManager {}
    }

    /// Saves a session; nothing is stored yet. This always succeeds.
    pub fn save_session(&self, _session: &Session) -> (r: Result<(), Error>)
        ensures
            r is Ok,
    {
        Ok(())
    }
}

} // verus!
