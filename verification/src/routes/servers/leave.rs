//! `DELETE /servers/{id}/users`: leave a server.

use vstd::prelude::*;
use crate::websocket::messages::BrokerEvent;

verus! {

/// Why the user cannot leave a server.
pub enum LeaveError {
    /// The user is not a member.
    NotOnServerError,
    /// The owner cannot leave their server.
    UserIsOwnerError,
    /// An unexpected failure; the text describes it.
    UnexpectedError(String),
}

impl LeaveError {
    /// The HTTP status of the error.
    pub fn status_code(&self) -> (code: u16)
        ensures
            code == (match self {
                LeaveError::NotOnServerError => 400u16,
                LeaveError::UserIsOwnerError => 400u16,
                LeaveError::UnexpectedError(_) => 500u16,
            }),
    {
        match self {
            LeaveError::NotOnServerError => 400,
            LeaveError::UserIsOwnerError => 400,
            LeaveError::UnexpectedError(_) => 500,
        }
    }

    /// The error's message.
    pub fn message(&self) -> (m: String)
        ensures
            m@ == (match self {
                LeaveError::NotOnServerError => "User is not a member of this server"@,
                LeaveError::UserIsOwnerError => "User is owner of this server"@,
                LeaveError::UnexpectedError(e) => e@,
            }),
    {
        match self {
            LeaveError::NotOnServerError => "User is not a member of this server".to_string(),
            LeaveError::UserIsOwnerError => "User is owner of this server".to_string(),
            LeaveError::UnexpectedError(e) => e.clone(),
        }
    }
}

impl LeaveError {
    /// The owner of a server may not leave it.
    pub fn check_not_owner(user_id: u128, owner_id: u128) -> (res: Result<(), LeaveError>)
        ensures
            user_id != owner_id ==> res is Ok,
            user_id == owner_id ==> res matches Err(LeaveError::UserIsOwnerError),
    {
        if user_id == owner_id {
            Err(LeaveError::UserIsOwnerError)
        } else {
            Ok(())
        }
    }

    /// Leaving fails when the user had no membership to remove.
    pub fn check_was_member(was_on_server: bool) -> (res: Result<(), LeaveError>)
        ensures
            was_on_server ==> res is Ok,
            !was_on_server ==> res matches Err(LeaveError::NotOnServerError),
    {
        if was_on_server {
            Ok(())
        } else {
            Err(LeaveError::NotOnServerError)
        }
    }
}

/// The event that tells the websocket service that the user left.
pub fn left_event(user_id: u128, server_id: u128) -> (event: BrokerEvent)
    ensures
        event == (BrokerEvent::UserLeft { user_id, server_id }),
{
    BrokerEvent::UserLeft { user_id, server_id }
}

} // verus!
