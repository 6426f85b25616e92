//! `GET /servers/{id}/invites`: the invites of a server the user owns.

use vstd::prelude::*;

verus! {

/// Why the user cannot list the invites of a server.
pub enum GetInvitesError {
    /// The user does not own the server.
    ForbiddenError,
    /// An unexpected failure; the text describes it.
    UnexpectedError(String),
}

impl GetInvitesError {
    /// The HTTP status of the error.
    pub fn status_code(&self) -> (code: u16)
        ensures
            code == (match self {
                GetInvitesError::ForbiddenError => 403u16,
                GetInvitesError::UnexpectedError(_) => 500u16,
            }),
    {
        match self {
            GetInvitesError::ForbiddenError => 403,
            GetInvitesError::UnexpectedError(_) => 500,
        }
    }

    /// The error's message.
    pub fn message(&self) -> (m: String)
        ensures
            m@ == (match self {
                GetInvitesError::ForbiddenError => "Forbidden"@,
                GetInvitesError::UnexpectedError(e) => e@,
            }),
    {
        match self {
            GetInvitesError::ForbiddenError => "Forbidden".to_string(),
            GetInvitesError::UnexpectedError(e) => e.clone(),
        }
    }
}

impl GetInvitesError {
    /// Only the server's owner may list its invites.
    pub fn check_owner(is_owner: bool) -> (res: Result<(), GetInvitesError>)
        ensures
            is_owner ==> res is Ok,
            !is_owner ==> res matches Err(GetInvitesError::ForbiddenError),
    {
        if is_owner {
            Ok(())
        } else {
            Err(GetInvitesError::ForbiddenError)
        }
    }
}

} // verus!
