//! The repository contract and its error vocabulary.
pub mod label;
pub mod laws;
pub mod relational;
pub mod todo;

use vstd::prelude::*;

verus! {

/// Failure of a repository operation.
#[derive(Debug, PartialEq, Eq)]
pub enum RepositoryError {
    /// No record is stored under the identifier.
    NotFound(i32),
    /// The backend failed (I/O, a constraint, a conversion); the text says how.
    Unexpected(String),
}

impl Clone for RepositoryError {
    fn clone(&self) -> (r: Self)
        ensures
            r == *self,
    {
        match self {
            RepositoryError::NotFound(id) => RepositoryError::NotFound(*id),
            RepositoryError::Unexpected(detail) => RepositoryError::Unexpected(detail.clone()),
        }
    }
}

} // verus!
