//! `GET /channels/{id}/messages`: the messages of a channel the user can read.

use vstd::prelude::*;

verus! {

/// Why the messages of a channel cannot be read.
pub enum GetMessagesError {
    /// The user cannot read the channel; the text is the database's report.
    ForbiddenError(String),
    /// An unexpected failure; the text describes it.
    UnexpectedError(String),
}

impl GetMessagesError {
    /// The HTTP status of the error.
    pub fn status_code(&self) -> (code: u16)
        ensures
            code == (match self {
                GetMessagesError::ForbiddenError(_) => 403u16,
                GetMessagesError::UnexpectedError(_) => 500u16,
            }),
    {
        match self {
            GetMessagesError::ForbiddenError(_) => 403,
            GetMessagesError::UnexpectedError(_) => 500,
        }
    }

    /// The error's message.
    pub fn message(&self) -> (m: String)
        ensures
            m@ == (match self {
                GetMessagesError::ForbiddenError(_) => "Forbidden"@,
                GetMessagesError::UnexpectedError(e) => e@,
            }),
    {
        match self {
            GetMessagesError::ForbiddenError(_) => "Forbidden".to_string(),
            GetMessagesError::UnexpectedError(e) => e.clone(),
        }
    }
}

impl GetMessagesError {
    /// The outcome of the channel access check: a refusal by the database
    /// (no membership row) forbids the request and keeps the database's report.
    pub fn check_access(access: Result<(), String>) -> (res: Result<(), GetMessagesError>)
        ensures
            match access {
                Ok(()) => res is Ok,
                Err(e) => res matches Err(GetMessagesError::ForbiddenError(r)) && r == e,
            },
    {
        match access {
            Ok(()) => Ok(()),
            Err(e) => Err(GetMessagesError::ForbiddenError(e)),
        }
    }
}

} // verus!
