//! `DELETE /servers/{id}`: delete a server the user owns.

use vstd::prelude::*;
use crate::websocket::messages::BrokerEvent;

verus! {

/// Why a server cannot be deleted.
pub enum DeleteServerError {
    /// The user does not own the server.
    ForbiddenError,
    /// An unexpected failure; the text describes it.
    UnexpectedError(String),
}

impl DeleteServerError {
    /// The HTTP status of the error.
    pub fn status_code(&self) -> (code: u16)
        ensures
            code == (match self {
                DeleteServerError::ForbiddenError => 403u16,
                DeleteServerError::UnexpectedError(_) => 500u16,
            }),
    {
        match self {
            DeleteServerError::ForbiddenError => 403,
            DeleteServerError::UnexpectedError(_) => 500,
        }
    }

    /// The error's message.
    pub fn message(&self) -> (m: String)
        ensures
            m@ == (match self {
                DeleteServerError::ForbiddenError => "Forbidden"@,
                DeleteServerError::UnexpectedError(e) => e@,
            }),
    {
        match self {
            DeleteServerError::ForbiddenError => "Forbidden".to_string(),
            DeleteServerError::UnexpectedError(e) => e.clone(),
        }
    }
}

impl DeleteServerError {
    /// Only the server's owner may delete it.
    pub fn check_owner(is_owner: bool) -> (res: Result<(), DeleteServerError>)
        ensures
            is_owner ==> res is Ok,
            !is_owner ==> res matches Err(DeleteServerError::ForbiddenError),
    {
        if is_owner {
            Ok(())
        } else {
            Err(DeleteServerError::ForbiddenError)
        }
    }
}

/// The event that tells the websocket service about the deleted server.
pub fn deleted_event(server_id: u128) -> (event: BrokerEvent)
    ensures
        event == (BrokerEvent::DeleteServer { server_id }),
{
    BrokerEvent::DeleteServer { server_id }
}

} // verus!
