//! `GET /servers/{id}`: a server the user is a member of.

use vstd::prelude::*;

verus! {

/// Why the user cannot read a server.
pub enum GetServerError {
    /// The user is not a member of the server.
    ForbiddenError,
    /// An unexpected failure; the text describes it.
    UnexpectedError(String),
}

impl GetServerError {
    /// The HTTP status of the error.
    pub fn status_code(&self) -> (code: u16)
        ensures
            code == (match self {
                GetServerError::ForbiddenError => 403u16,
                GetServerError::UnexpectedError(_) => 500u16,
            }),
    {
        match self {
            GetServerError::ForbiddenError => 403,
            GetServerError::UnexpectedError(_) => 500,
        }
    }

    /// The error's message.
    pub fn message(&self) -> (m: String)
        ensures
            m@ == (match self {
                GetServerError::ForbiddenError => "Forbidden"@,
                GetServerError::UnexpectedError(e) => e@,
            }),
    {
        match self {
            GetServerError::ForbiddenError => "Forbidden".to_string(),
            GetServerError::UnexpectedError(e) => e.clone(),
        }
    }
}

impl GetServerError {
    /// Only members of a server may read a server.
    pub fn check_membership(is_member: bool) -> (res: Result<(), GetServerError>)
        ensures
            is_member ==> res is Ok,
            !is_member ==> res matches Err(GetServerError::ForbiddenError),
    {
        if is_member {
            Ok(())
        } else {
            Err(GetServerError::ForbiddenError)
        }
    }
}

} // verus!
