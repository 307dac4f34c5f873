//! Errors of the worker registry.

use vstd::prelude::*;
use vstd::string::*;

verus! {

/// Why the registry could not carry out an operation.
#[derive(Debug, Clone, Copy, PartialEq, Eq, Structural)]
pub enum BackendError {
    /// The pool holds no worker.
    NoWorkersAvailable,
    /// The worker's dispatch channel stayed full, or no reply came, for the
    /// configured time.
    Timeout,
    /// The worker went away while the invocation was pending.
    NoReply,
    /// The pool was asked about a worker it does not hold.
    InternalBookkeeping,
}

impl BackendError {
    /// The text shown to a caller for this error.
    pub open spec fn message_spec(self) -> Seq<char> {
        match self {
            BackendError::NoWorkersAvailable => "Out of resources"@,
            BackendError::Timeout => "Timed out while invoking function"@,
            BackendError::NoReply => "encountered error while invoking function"@,
            BackendError::InternalBookkeeping =>
                "encountered internal error while invoking function"@,
        }
    }

    /// Returns the text shown to a caller for this error.
    pub fn message(&self) -> (text: String)
        ensures
            text@ == self.message_spec(),
    {
        match self {
            BackendError::NoWorkersAvailable => String::from_str("Out of resources"),
            BackendError::Timeout => String::from_str("Timed out while invoking function"),
            BackendError::NoReply => String::from_str("encountered error while invoking function"),
            BackendError::InternalBookkeeping => String::from_str(
                "encountered internal error while invoking function",
            ),
        }
    }
}

} // verus!
