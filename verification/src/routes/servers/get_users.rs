//! `GET /servers/{id}/users`: the members of a server the user is a member of.

use vstd::prelude::*;

verus! {

/// Why the user cannot list the members of a server.
pub enum GetUsersError {
    /// The user is not a member of the server.
    ForbiddenError,
    /// An unexpected failure; the text describes it.
    UnexpectedError(String),
}

impl GetUsersError {
    /// The HTTP status of the error.
    pub fn status_code(&self) -> (code: u16)
        ensures
            code == (match self {
                GetUsersError::ForbiddenError => 403u16,
                GetUsersError::UnexpectedError(_) => 500u16,
            }),
    {
        match self {
            GetUsersError::ForbiddenError => 403,
            GetUsersError::UnexpectedError(_) => 500,
        }
    }

    /// The error's message.
    pub fn message(&self) -> (m: String)
        ensures
            m@ == (match self {
                GetUsersError::ForbiddenError => "Forbidden"@,
                GetUsersError::UnexpectedError(e) => e@,
            }),
    {
        match self {
            GetUsersError::ForbiddenError => "Forbidden".to_string(),
            GetUsersError::UnexpectedError(e) => e.clone(),
        }
    }
}

impl GetUsersError {
    /// Only members of a server may list the members of a server.
    pub fn check_membership(is_member: bool) -> (res: Result<(), GetUsersError>)
        ensures
            is_member ==> res is Ok,
            !is_member ==> res matches Err(GetUsersError::ForbiddenError),
    {
        if is_member {
            Ok(())
        } else {
            Err(GetUsersError::ForbiddenError)
        }
    }
}

} // verus!
