//! Error taxonomy of the supervisor core.
//!
//! Startup and transport failures live at the process edge; the
//! variants here are the conditions the verified core itself raises.

use vstd::prelude::*;

verus! {

/// A condition raised by the reconciliation core.
#[derive(Clone, Copy, Debug, PartialEq, Eq, Structural)]
pub enum Error {
    /// A declared port string is not a valid decimal port number.
    InvalidPort,
    /// An election store entry lacks the well-known election rumor:
    /// a defect in the upstream store, never papered over.
    MissingElection,
    /// A process start was requested while a process is already running.
    AlreadyRunning,
}

impl Error {
    /// A short human-readable description of the condition.
    pub fn message(&self) -> (r: &'static str)
        ensures
            r@ == match *self {
                Error::InvalidPort => "invalid port"@,
                Error::MissingElection => "missing election entry"@,
                Error::AlreadyRunning => "process already running"@,
            },
    {
        match *self {
            Error::InvalidPort => "invalid port",
            Error::MissingElection => "missing election entry",
            Error::AlreadyRunning => "process already running",
        }
    }
}

} // verus!
