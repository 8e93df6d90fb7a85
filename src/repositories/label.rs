//! Labels that can be attached to todos.
use vstd::prelude::*;

use super::RepositoryError;

verus! {

/// A stored label.
#[derive(Debug, PartialEq, Eq)]
pub struct Label {
    pub id: i32,
    pub text: String,
}

impl Clone for Label {
    fn clone(&self) -> (r: Self)
        ensures
            r == *self,
    {
        Label { id: self.id, text: self.text.clone() }
    }
}

/// New contents for a stored label.
#[derive(Debug, PartialEq, Eq)]
pub struct UpdateLabel {
    pub id: i32,
    pub text: String,
}

/// Whether a label may be created, given the label already stored under the
/// same name, if any: a name is taken at most once, and a clash is reported
/// as a backend failure that carries the existing label's id.
pub fn check_name_free(existing: &Option<Label>) -> (r: Result<(), RepositoryError>)
    ensures
        r is Ok <==> existing is None,
        r matches Err(e) ==> e is Unexpected,
{
    match existing {
        Some(label) => Err(RepositoryError::Unexpected(label.id.to_string())),
        None => Ok(()),
    }
}

} // verus!
