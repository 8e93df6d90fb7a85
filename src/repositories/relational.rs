//! What a relational backend decides from what its statements return.
//!
//! The backend runs one statement per operation (`update` runs a `find`
//! first, to lay the payload over the stored record). The functions here
//! turn a statement's outcome into the operation's result, so that both
//! backends report the same errors.
use vstd::prelude::*;

use super::todo::Todo;
use super::RepositoryError;

verus! {

/// How a statement failed, as far as the repository's result depends on it.
#[derive(Debug, PartialEq, Eq)]
pub enum DbFailure {
    /// The statement matched no row.
    RowNotFound,
    /// Any other failure, with the database driver's description.
    Other(String),
}

impl Clone for DbFailure {
    fn clone(&self) -> (r: Self)
        ensures
            r == *self,
    {
        match self {
            DbFailure::RowNotFound => DbFailure::RowNotFound,
            DbFailure::Other(detail) => DbFailure::Other(detail.clone()),
        }
    }
}

/// The error an operation on `id` reports for `failure`.
pub open spec fn error_for(id: i32, failure: DbFailure) -> RepositoryError {
    match failure {
        DbFailure::RowNotFound => RepositoryError::NotFound(id),
        DbFailure::Other(detail) => RepositoryError::Unexpected(detail),
    }
}

/// A missing row is `NotFound(id)`; every other failure is `Unexpected`.
pub fn classify_failure(id: i32, failure: DbFailure) -> (r: RepositoryError)
    ensures
        r == error_for(id, failure),
{
    match failure {
        DbFailure::RowNotFound => RepositoryError::NotFound(id),
        DbFailure::Other(detail) => RepositoryError::Unexpected(detail),
    }
}

/// The result of an operation on `id` whose statement fetches one row.
pub fn fetched_record(id: i32, fetched: Result<Todo, DbFailure>) -> (r: Result<
    Todo,
    RepositoryError,
>)
    ensures
        r == match fetched {
            Ok(t) => Ok(t),
            Err(f) => Err(error_for(id, f)),
        },
{
    match fetched {
        Ok(t) => Ok(t),
        Err(f) => Err(classify_failure(id, f)),
    }
}

/// The result of deleting `id` once the statement has run: no affected row
/// means that no record was stored under `id`.
pub fn deletion_outcome(id: i32, rows_affected: u64) -> (r: Result<(), RepositoryError>)
    ensures
        r == if rows_affected == 0 {
            Err(RepositoryError::NotFound(id))
        } else {
            Ok(())
        },
{
    if rows_affected == 0 {
        Err(RepositoryError::NotFound(id))
    } else {
        Ok(())
    }
}

} // verus!
