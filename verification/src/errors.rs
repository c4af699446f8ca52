//! Failure taxonomy of the session manager.

use vstd::prelude::*;

verus! {

/// Why a session-manager operation failed.
///
/// Every operation of the manager returns a success/failure result and never
/// fails silently; the payload of a failing variant carries the fully formed
/// descriptive message that is surfaced to the caller.
#[derive(Debug, Clone, PartialEq, Eq)]
pub enum SessionError {
    /// PTY allocation or child-process spawn failed; no session is installed.
    SpawnError(String),
    /// `send`, `resize` or `kill` was issued while the session slot is empty.
    NoActiveSession,
    /// A write, flush or resize call failed against live handles.
    IOError(String),
    /// The lock guarding the session slot could not be acquired.
    LockError(String),
}

/// The descriptive message of an error, as a sequence of characters.
pub open spec fn spec_message(e: SessionError) -> Seq<char> {
    match e {
        SessionError::SpawnError(m) => m@,
        SessionError::NoActiveSession => "No active PTY session"@,
        SessionError::IOError(m) => m@,
        SessionError::LockError(m) => m@,
    }
}

impl SessionError {
    /// The descriptive message surfaced to the caller.
    pub fn message(&self) -> (r: String)
        ensures
            r@ == spec_message(*self),
    {
        match self {
            SessionError::SpawnError(m) => m.clone(),
            SessionError::NoActiveSession => String::from_str("No active PTY session"),
            SessionError::IOError(m) => m.clone(),
            SessionError::LockError(m) => m.clone(),
        }
    }
}

} // verus!
