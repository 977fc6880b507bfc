//! Session-scoped distributed mutual exclusion backed by PostgreSQL
//! session-level advisory locks.
//!
//! A [`lock::AdvisoryLock`] holds connection parameters and a 64-bit lock
//! identifier. Entering it opens a dedicated database connection, takes the
//! advisory lock, and keeps exclusive ownership of that connection while the
//! lock is held; exiting releases the lock and closes the connection.

pub mod dsn;
pub mod errors;
pub mod lock;
mod pg;

pub use errors::LockError;
pub use lock::AdvisoryLock;
