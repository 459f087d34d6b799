//! The error taxonomy of the service and its mapping to HTTP status codes.

use vstd::prelude::*;

verus! {

/// Why a persistence operation failed.
#[derive(Clone, Copy, Debug, PartialEq, Eq, Structural)]
pub enum DbError {
    /// The lookup matched no row.
    NotFound,
    /// The database refused the operation: connectivity loss, a violated
    /// constraint, or a query failure such as integer overflow in an update.
    DatabaseError,
}

/// Startup failed: the service was asked to serve traffic while schema
/// migrations were still pending. Fatal; the process must not serve.
#[derive(Clone, Copy, Debug, PartialEq, Eq, Structural)]
pub struct MigrationError;

/// The HTTP status code that a handler must answer with when a persistence
/// operation fails: a lookup miss is the client's error (404), everything
/// the database refuses is the server's (500).
pub open spec fn spec_http_status_of(e: DbError) -> u16 {
    match e {
        DbError::NotFound => 404,
        DbError::DatabaseError => 500,
    }
}

/// Maps a persistence error to the HTTP status code of the response.
pub fn http_status_of(e: DbError) -> (code: u16)
    ensures
        code == spec_http_status_of(e),
{
    match e {
        DbError::NotFound => 404,
        DbError::DatabaseError => 500,
    }
}

} // verus!
