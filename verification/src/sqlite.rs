//! Failures of the SQLite storage layer.
use vstd::prelude::*;

verus! {

/// The error type of the `rusqlite` crate, carried by
/// [`FailedTo::BeginTransaction`]. Declared opaque: nothing inside a value of
/// it is read by this library.
#[verifier::external_type_specification]
#[verifier::external_body]
pub struct ExRusqliteError(rusqlite::Error);

/// Represents failures that can occur specifically within the SQLite
/// implementation.
#[derive(Debug, PartialEq)]
pub enum FailedTo {
    /// Failed to begin a database transaction.
    BeginTransaction(rusqlite::Error),
    /// Failed to build a SQL statement.
    BuildStatement,
    /// Failed to commit a database transaction.
    CommitTransaction,
    /// Failed to execute a batch of SQL statements.
    ExecuteBatch,
    /// Failed to execute a SQL query.
    ExecuteQuery,
    /// Failed to execute a prepared SQL statement.
    ExecuteStatement,
    /// Failed to open a connection to the SQLite database.
    OpenConnection,
    /// Failed to prepare a SQL statement for execution.
    PrepareStatement,
}

} // verus!
