//! `POST /servers/{id}/channels`: create a channel on a server the user owns.

use vstd::prelude::*;
use crate::domain::channels::{NewChannel, ChannelName, channel_name_parsed};
use crate::websocket::messages::BrokerEvent;

verus! {

/// The request body.
pub struct BodyData {
    pub name: String,
}

impl NewChannel {
    /// Validate a channel creation body: its name must be a valid channel name.
    pub fn try_from(value: BodyData) -> (res: Result<NewChannel, String>)
        ensures
            match res {
                Ok(c) => channel_name_parsed(value.name@, Ok(c.name)),
                Err(m) => channel_name_parsed(value.name@, Err(m)),
            },
    {
        match ChannelName::parse(value.name) {
            Ok(name) => Ok(NewChannel { name }),
            Err(e) => Err(e),
        }
    }
}

/// Why a channel cannot be created.
pub enum CreateChannelError {
    /// Invalid data was supplied in the request; the text says why.
    ValidationError(String),
    /// The user does not own the server.
    ForbiddenError,
    /// An unexpected failure; the text describes it.
    UnexpectedError(String),
}

impl CreateChannelError {
    /// The HTTP status of the error.
    pub fn status_code(&self) -> (code: u16)
        ensures
            code == (match self {
                CreateChannelError::ValidationError(_) => 400u16,
                CreateChannelError::ForbiddenError => 403u16,
                CreateChannelError::UnexpectedError(_) => 500u16,
            }),
    {
        match self {
            CreateChannelError::ValidationError(_) => 400,
            CreateChannelError::ForbiddenError => 403,
            CreateChannelError::UnexpectedError(_) => 500,
        }
    }

    /// The error's message.
    pub fn message(&self) -> (m: String)
        ensures
            m@ == (match self {
                CreateChannelError::ValidationError(e) => e@,
                CreateChannelError::ForbiddenError => "Forbidden"@,
                CreateChannelError::UnexpectedError(e) => e@,
            }),
    {
        match self {
            CreateChannelError::ValidationError(e) => e.clone(),
            CreateChannelError::ForbiddenError => "Forbidden".to_string(),
            CreateChannelError::UnexpectedError(e) => e.clone(),
        }
    }
}

impl CreateChannelError {
    /// Only the server's owner may create channels on it.
    pub fn check_owner(is_owner: bool) -> (res: Result<(), CreateChannelError>)
        ensures
            is_owner ==> res is Ok,
            !is_owner ==> res matches Err(CreateChannelError::ForbiddenError),
    {
        if is_owner {
            Ok(())
        } else {
            Err(CreateChannelError::ForbiddenError)
        }
    }
}

/// The event that tells the websocket service about the new channel.
pub fn created_event(channel_id: u128) -> (event: BrokerEvent)
    ensures
        event == (BrokerEvent::NewChannel { channel_id }),
{
    BrokerEvent::NewChannel { channel_id }
}

} // verus!
