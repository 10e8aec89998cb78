//! Failures the bridge can report.

use vstd::prelude::*;
use vstd::string::*;

verus! {

/// Why a filesystem operation failed.
#[derive(Debug)]
pub enum FsError {
    /// The path does not name an entry.
    NotFound,
    /// The handle id is not open: never issued, or already closed.
    InvalidHandle,
    /// The operation is permanently unavailable through this bridge.
    Unsupported,
    /// The backend failed for a reason of its own; the message is kept for diagnostics.
    BackendError(String),
}

impl FsError {
    /// This is a backend failure that carries the message `msg`.
    pub open spec fn is_backend_error(self, msg: Seq<char>) -> bool {
        self matches FsError::BackendError(m) && m@ == msg
    }

    /// The text that describes this failure: a fixed phrase for the three
    /// failures of the bridge, the backend's own message for a backend failure.
    pub open spec fn message_text(self) -> Seq<char> {
        match self {
            FsError::NotFound => "entry not found"@,
            FsError::InvalidHandle => "invalid handle"@,
            FsError::Unsupported => "unsupported"@,
            FsError::BackendError(m) => m@,
        }
    }

    /// True for the failure that reports an absent path.
    pub fn is_not_found(&self) -> (r: bool)
        ensures
            r == (self is NotFound),
    {
        match self {
            FsError::NotFound => true,
            _ => false,
        }
    }

    /// A description of this failure, for diagnostics.
    pub fn message(&self) -> (r: String)
        ensures
            r@ == self.message_text(),
    {
        match self {
            FsError::NotFound => String::from_str("entry not found"),
            FsError::InvalidHandle => String::from_str("invalid handle"),
            FsError::Unsupported => String::from_str("unsupported"),
            FsError::BackendError(m) => m.clone(),
        }
    }
}

} // verus!
