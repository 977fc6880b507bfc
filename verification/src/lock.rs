//! The lock session: one acquire/hold/release lifecycle for a given lock
//! identifier and connection target.

use vstd::prelude::*;
use crate::dsn::{build_dsn, dsn_spec, opt_str};
use crate::errors::LockError;
use crate::pg::{pg_connect, pg_execute};

verus! {

/// A session-level advisory lock on a PostgreSQL server.
///
/// Holds the connection parameters and the 64-bit lock identifier, plus —
/// exactly while the lock is held — exclusive ownership of the live
/// connection that holds it. The presence of that connection is the sole
/// source of truth for "is this lock held": no separate flag is kept, so the
/// two can never disagree.
pub struct AdvisoryLock {
    host: String,
    port: u16,
    database: String,
    user: Option<String>,
    password: Option<String>,
    lock_id: i64,
    client: Option<tokio_postgres::Client>,
}

/// The mathematical content of an [`AdvisoryLock`]: its configuration and
/// whether it currently holds the lock.
pub ghost struct LockView {
    pub host: Seq<char>,
    pub port: u16,
    pub database: Seq<char>,
    pub user: Option<Seq<char>>,
    pub password: Option<Seq<char>>,
    pub lock_id: i64,
    pub locked: bool,
}

/// Two views agree on every configuration field (everything but `locked`).
pub open spec fn same_config(a: LockView, b: LockView) -> bool {
    &&& a.host == b.host
    &&& a.port == b.port
    &&& a.database == b.database
    &&& a.user == b.user
    &&& a.password == b.password
    &&& a.lock_id == b.lock_id
}

impl View for AdvisoryLock {
    type V = LockView;

    closed spec fn view(&self) -> LockView {
        LockView {
            host: self.host@,
            port: self.port,
            database: self.database@,
            user: opt_str(self.user),
            password: opt_str(self.password),
            lock_id: self.lock_id,
            locked: self.client is Some,
        }
    }
}

impl AdvisoryLock {
    /// Creates a session from its configuration. No I/O happens here; the
    /// session starts out not holding the lock.
    pub fn new(
        lock_id: i64,
        host: String,
        database: String,
        user: Option<String>,
        password: Option<String>,
        port: u16,
    ) -> (r: Self)
        ensures
            r@ == (LockView {
                host: host@,
                port: port,
                database: database@,
                user: opt_str(user),
                password: opt_str(password),
                lock_id: lock_id,
                locked: false,
            }),
    {
        AdvisoryLock { host, port, database, user, password, lock_id, client: None }
    }

    /// The connection string this session connects with: space-separated
    /// `key=value` tokens in the fixed order `host, port, dbname, user?,
    /// password?`, the optional fields omitted entirely when absent.
    pub fn connection_string(&self) -> (r: String)
        ensures
            r@ == dsn_spec(self@.host, self@.port, self@.database, self@.user, self@.password),
    {
        build_dsn(self.host.as_str(), self.port, self.database.as_str(), &self.user, &self.password)
    }

    /// Acquires the lock: opens a dedicated connection and blocks until the
    /// server grants `pg_advisory_lock` for this session's identifier.
    ///
    /// On success the session owns the live connection and is locked. On any
    /// failure nothing is retained — a connection opened during a failed
    /// attempt is dropped, not leaked — and the session stays unlocked, with
    /// the error saying whether connecting or acquiring failed. A session
    /// that already holds the lock is rejected rather than allowed to open a
    /// second connection against itself.
    pub fn enter(&mut self, handle: &tokio::runtime::Handle) -> (r: Result<(), LockError>)
        ensures
            same_config(old(self)@, final(self)@),
            old(self)@.locked ==> *final(self) == *old(self) && r == Err::<(), LockError>(
                LockError::AlreadyHeld,
            ),
            !old(self)@.locked ==> (match r {
                Ok(_) => final(self)@.locked,
                Err(e) => !final(self)@.locked && (e is ConnectionFailed || e is AcquireFailed),
            }),
    {
        if self.client.is_some() {
            return Err(LockError::AlreadyHeld);
        }
        let dsn = build_dsn(
            self.host.as_str(),
            self.port,
            self.database.as_str(),
            &self.user,
            &self.password,
        );
        let client = match pg_connect(handle, dsn.as_str()) {
            Ok(c) => c,
            Err(e) => {
                return Err(LockError::ConnectionFailed(e.to_string()));
            },
        };
        match pg_execute(handle, &client, "SELECT pg_advisory_lock($1)", self.lock_id) {
            Ok(_) => {
                self.client = Some(client);
                Ok(())
            },
            Err(e) => Err(LockError::AcquireFailed(e.to_string())),
        }
    }

    /// Releases the lock: issues `pg_advisory_unlock` for this session's
    /// identifier on the owned connection, then drops the connection —
    /// whether or not the release statement succeeded — closing it; the
    /// server drops any session-level advisory locks of a closing connection
    /// on its own.
    ///
    /// The held state is cleared before the release statement runs, so the
    /// session is observably unlocked afterwards even if the statement
    /// failed. On a session that holds nothing this is a no-op, never an
    /// error. The result is always `false` — "do not suppress the caller's
    /// error" — matching scoped-release semantics.
    pub fn exit(&mut self, handle: &tokio::runtime::Handle) -> (r: Result<bool, LockError>)
        ensures
            same_config(old(self)@, final(self)@),
            !final(self)@.locked,
            !old(self)@.locked ==> *final(self) == *old(self) && r == Ok::<bool, LockError>(false),
            r matches Ok(suppress) ==> suppress == false,
            r matches Err(e) ==> e is ReleaseFailed && old(self)@.locked,
    {
        match self.client.take() {
            None => Ok(false),
            Some(client) => {
                match pg_execute(
                    handle,
                    &client,
                    "SELECT pg_advisory_unlock($1)",
                    self.lock_id,
                ) {
                    Ok(_) => Ok(false),
                    Err(e) => Err(LockError::ReleaseFailed(e.to_string())),
                }
            },
        }
    }

    /// The lock identifier.
    pub fn lock_id(&self) -> (r: i64)
        ensures
            r == self@.lock_id,
    {
        self.lock_id
    }

    /// The database host.
    pub fn host(&self) -> (r: &str)
        ensures
            r@ == self@.host,
    {
        self.host.as_str()
    }

    /// The database port.
    pub fn port(&self) -> (r: u16)
        ensures
            r == self@.port,
    {
        self.port
    }

    /// The database name.
    pub fn database(&self) -> (r: &str)
        ensures
            r@ == self@.database,
    {
        self.database.as_str()
    }

    /// The configured user, if any.
    pub fn user(&self) -> (r: Option<&str>)
        ensures
            match r {
                Some(u) => self@.user == Some(u@),
                None => self@.user is None,
            },
    {
        match &self.user {
            Some(u) => Some(u.as_str()),
            None => None,
        }
    }

    /// The configured password, if any.
    pub fn password(&self) -> (r: Option<&str>)
        ensures
            match r {
                Some(p) => self@.password == Some(p@),
                None => self@.password is None,
            },
    {
        match &self.password {
            Some(p) => Some(p.as_str()),
            None => None,
        }
    }

    /// Whether this session currently holds the lock: true exactly when the
    /// session owns a live connection.
    pub fn is_locked(&self) -> (r: bool)
        ensures
            r == self@.locked,
    {
        self.client.is_some()
    }
}

} // verus!
