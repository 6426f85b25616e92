//! `GET /users/servers`: the servers of the current user.

use vstd::prelude::*;

verus! {

/// Why the current user's servers cannot be read.
pub enum CurrentUserServersError {
    /// An unexpected failure; the text describes it.
    UnexpectedError(String),
}

impl CurrentUserServersError {
    /// The HTTP status of the error.
    pub fn status_code(&self) -> (code: u16)
        ensures
            code == (match self {
                CurrentUserServersError::UnexpectedError(_) => 500u16,
            }),
    {
        match self {
            CurrentUserServersError::UnexpectedError(_) => 500,
        }
    }

    /// The error's message.
    pub fn message(&self) -> (m: String)
        ensures
            m@ == (match self {
                CurrentUserServersError::UnexpectedError(e) => e@,
            }),
    {
        match self {
            CurrentUserServersError::UnexpectedError(e) => e.clone(),
        }
    }
}

} // verus!
