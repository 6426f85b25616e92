//! `GET /users`: the current user.

use vstd::prelude::*;

verus! {

/// Why the current user cannot be read.
pub enum UsersError {
    /// No user has the token's id.
    UnauthorizedError,
}

impl UsersError {
    /// The HTTP status of the error.
    pub fn status_code(&self) -> (code: u16)
        ensures
            code == (match self {
                UsersError::UnauthorizedError => 401u16,
            }),
    {
        match self {
            UsersError::UnauthorizedError => 401,
        }
    }

    /// The error's message.
    pub fn message(&self) -> (m: String)
        ensures
            m@ == (match self {
                UsersError::UnauthorizedError => "Unauthorized"@,
            }),
    {
        match self {
            UsersError::UnauthorizedError => "Unauthorized".to_string(),
        }
    }
}

} // verus!
