//! The errors a lock session can surface. All carry a human-readable
//! description; callers need no finer-grained typed discrimination.

use vstd::prelude::*;
use vstd::string::StringExecFns;

verus! {

/// Why a lock operation failed.
pub enum LockError {
    /// Opening the database connection failed (unreachable host,
    /// authentication failure, bad database name).
    ConnectionFailed(String),
    /// The server rejected the advisory-lock statement.
    AcquireFailed(String),
    /// The server rejected the advisory-unlock statement.
    ReleaseFailed(String),
    /// The session already holds the lock; re-entrant acquisition is
    /// rejected rather than allowed to open a second connection.
    AlreadyHeld,
}

impl LockError {
    /// The human-readable description of this error.
    pub open spec fn message_spec(&self) -> Seq<char> {
        match self {
            LockError::ConnectionFailed(d) => "Connection failed: "@ + d@,
            LockError::AcquireFailed(d) => "Lock acquisition failed: "@ + d@,
            LockError::ReleaseFailed(d) => "Lock release failed: "@ + d@,
            LockError::AlreadyHeld => "Lock already held by this session"@,
        }
    }

    /// Renders the human-readable description.
    pub fn message(&self) -> (m: String)
        ensures
            m@ == self.message_spec(),
    {
        match self {
            LockError::ConnectionFailed(d) => {
                let mut m = String::from_str("Connection failed: ");
                m.append(d.as_str());
                m
            },
            LockError::AcquireFailed(d) => {
                let mut m = String::from_str("Lock acquisition failed: ");
                m.append(d.as_str());
                m
            },
            LockError::ReleaseFailed(d) => {
                let mut m = String::from_str("Lock release failed: ");
                m.append(d.as_str());
                m
            },
            LockError::AlreadyHeld => String::from_str("Lock already held by this session"),
        }
    }
}

} // verus!
