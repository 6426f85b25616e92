//! `DELETE /channels/{id}`: delete a channel of a server the user owns.

use vstd::prelude::*;
use crate::websocket::messages::BrokerEvent;

verus! {

/// Why a channel cannot be deleted.
pub enum DeleteChannelError {
    /// The user does not own the channel's server.
    ForbiddenError,
    /// An unexpected failure; the text describes it.
    UnexpectedError(String),
}

impl DeleteChannelError {
    /// The HTTP status of the error.
    pub fn status_code(&self) -> (code: u16)
        ensures
            code == (match self {
                DeleteChannelError::ForbiddenError => 403u16,
                DeleteChannelError::UnexpectedError(_) => 500u16,
            }),
    {
        match self {
            DeleteChannelError::ForbiddenError => 403,
            DeleteChannelError::UnexpectedError(_) => 500,
        }
    }

    /// The error's message.
    pub fn message(&self) -> (m: String)
        ensures
            m@ == (match self {
                DeleteChannelError::ForbiddenError => "Forbidden"@,
                DeleteChannelError::UnexpectedError(e) => e@,
            }),
    {
        match self {
            DeleteChannelError::ForbiddenError => "Forbidden".to_string(),
            DeleteChannelError::UnexpectedError(e) => e.clone(),
        }
    }
}

impl DeleteChannelError {
    /// Only the owner of the channel's server may delete it.
    pub fn check_owner(is_owner: bool) -> (res: Result<(), DeleteChannelError>)
        ensures
            is_owner ==> res is Ok,
            !is_owner ==> res matches Err(DeleteChannelError::ForbiddenError),
    {
        if is_owner {
            Ok(())
        } else {
            Err(DeleteChannelError::ForbiddenError)
        }
    }
}

/// The event that tells the websocket service about the deleted channel.
pub fn deleted_event(server_id: u128, channel_id: u128) -> (event: BrokerEvent)
    ensures
        event == (BrokerEvent::DeleteChannel { server_id, channel_id }),
{
    BrokerEvent::DeleteChannel { server_id, channel_id }
}

} // verus!
