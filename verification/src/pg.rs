//! The trusted boundary to the database client: type declarations for the
//! outside crates' types and thin wrappers around the calls the lock
//! protocol makes. Everything else in the crate is verified against the
//! contracts stated here.

use vstd::prelude::*;

verus! {

#[verifier::external_type_specification]
#[verifier::external_body]
pub struct ExHandle(tokio::runtime::Handle);

#[verifier::external_type_specification]
#[verifier::external_body]
pub struct ExClient(tokio_postgres::Client);

#[verifier::external_type_specification]
#[verifier::external_body]
pub struct ExPgError(tokio_postgres::Error);

/// Relies on `tokio_postgres::connect`, driven to completion by
/// `tokio::runtime::Handle::block_on`: opens one new plaintext connection
/// described by `dsn` and returns its client half; the connection half is
/// handed to a task spawned on the runtime, which drives the connection's
/// I/O for its lifetime. Whether the connection succeeds depends on the
/// network and the server, so nothing is promised of the outcome.
#[verifier::external_body]
pub(crate) fn pg_connect(handle: &tokio::runtime::Handle, dsn: &str) -> (r: Result<
    tokio_postgres::Client,
    tokio_postgres::Error,
>) {
    match handle.block_on(tokio_postgres::connect(dsn, tokio_postgres::NoTls)) {
        Ok((client, connection)) => {
            handle.spawn(connection);
            Ok(client)
        },
        Err(e) => Err(e),
    }
}

/// Relies on `tokio_postgres::Client::execute`, driven to completion by
/// `tokio::runtime::Handle::block_on`: runs one statement on the client's
/// connection with `key` bound as its single 64-bit integer parameter,
/// blocking the calling thread until the server answers. The verdict is the
/// server's, so nothing is promised of the outcome.
#[verifier::external_body]
pub(crate) fn pg_execute(
    handle: &tokio::runtime::Handle,
    client: &tokio_postgres::Client,
    statement: &str,
    key: i64,
) -> (r: Result<u64, tokio_postgres::Error>) {
    handle.block_on(client.execute(statement, &[&key]))
}

} // verus!
