//! Errors of the service layer and the HTTP status each one stands for.
use vstd::prelude::*;

verus! {

/// An error of the service layer.
#[derive(Debug, Clone)]
pub enum TodoError {
    /// No record has the requested id.
    NotFound,
    /// The storage failed; the text describes how.
    Repo(String),
}

impl TodoError {
    /// The HTTP status code that reports this error: 404 for a missing
    /// record, 500 for a storage failure.
    pub fn status_code(&self) -> (r: u16)
        ensures
            r == (match self {
                TodoError::NotFound => 404u16,
                TodoError::Repo(_) => 500u16,
            }),
    {
        match self {
            TodoError::NotFound => 404,
            TodoError::Repo(_) => 500,
        }
    }
}

} // verus!
