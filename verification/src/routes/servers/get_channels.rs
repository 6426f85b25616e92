//! `GET /servers/{id}/channels`: the channels of a server the user is a member of.

use vstd::prelude::*;

verus! {

/// Why the user cannot list the channels of a server.
pub enum GetChannelsError {
    /// The user is not a member of the server.
    ForbiddenError,
    /// An unexpected failure; the text describes it.
    UnexpectedError(String),
}

impl GetChannelsError {
    /// The HTTP status of the error.
    pub fn status_code(&self) -> (code: u16)
        ensures
            code == (match self {
                GetChannelsError::ForbiddenError => 403u16,
                GetChannelsError::UnexpectedError(_) => 500u16,
            }),
    {
        match self {
            GetChannelsError::ForbiddenError => 403,
            GetChannelsError::UnexpectedError(_) => 500,
        }
    }

    /// The error's message.
    pub fn message(&self) -> (m: String)
        ensures
            m@ == (match self {
                GetChannelsError::ForbiddenError => "Forbidden"@,
                GetChannelsError::UnexpectedError(e) => e@,
            }),
    {
        match self {
            GetChannelsError::ForbiddenError => "Forbidden".to_string(),
            GetChannelsError::UnexpectedError(e) => e.clone(),
        }
    }
}

impl GetChannelsError {
    /// Only members of a server may list the channels of a server.
    pub fn check_membership(is_member: bool) -> (res: Result<(), GetChannelsError>)
        ensures
            is_member ==> res is Ok,
            !is_member ==> res matches Err(GetChannelsError::ForbiddenError),
    {
        if is_member {
            Ok(())
        } else {
            Err(GetChannelsError::ForbiddenError)
        }
    }
}

} // verus!
