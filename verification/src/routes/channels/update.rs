//! `POST /channels/{id}`: change a channel of a server the user owns.

use vstd::prelude::*;
use crate::domain::channels::{UpdateChannel, ChannelName, channel_name_parsed};
use crate::websocket::messages::BrokerEvent;

verus! {

/// The request body: the new name, if it changes.
pub struct BodyData {
    pub name: Option<String>,
}

impl UpdateChannel {
    /// Validate a channel update body: a given name must be a valid channel name.
    pub fn try_from(value: BodyData) -> (res: Result<UpdateChannel, String>)
        ensures
            match value.name {
                None => res matches Ok(u) && u.name is None,
                Some(n) => match res {
                    Ok(u) => u.name matches Some(c) && channel_name_parsed(n@, Ok(c)),
                    Err(m) => channel_name_parsed(n@, Err(m)),
                },
            },
    {
        match value.name {
            Some(n) => match ChannelName::parse(n) {
                Ok(name) => Ok(UpdateChannel { name: Some(name) }),
                Err(e) => Err(e),
            },
            None => Ok(UpdateChannel { name: None }),
        }
    }
}

/// Why a channel cannot be changed.
pub enum ChannelUpdateError {
    /// Invalid data was supplied in the request; the text says why.
    ValidationError(String),
    /// The user does not own the channel's server.
    ForbiddenError,
    /// An unexpected failure; the text describes it.
    UnexpectedError(String),
}

impl ChannelUpdateError {
    /// The HTTP status of the error.
    pub fn status_code(&self) -> (code: u16)
        ensures
            code == (match self {
                ChannelUpdateError::ValidationError(_) => 400u16,
                ChannelUpdateError::ForbiddenError => 403u16,
                ChannelUpdateError::UnexpectedError(_) => 500u16,
            }),
    {
        match self {
            ChannelUpdateError::ValidationError(_) => 400,
            ChannelUpdateError::ForbiddenError => 403,
            ChannelUpdateError::UnexpectedError(_) => 500,
        }
    }

    /// The error's message.
    pub fn message(&self) -> (m: String)
        ensures
            m@ == (match self {
                ChannelUpdateError::ValidationError(e) => e@,
                ChannelUpdateError::ForbiddenError => "Forbidden"@,
                ChannelUpdateError::UnexpectedError(e) => e@,
            }),
    {
        match self {
            ChannelUpdateError::ValidationError(e) => e.clone(),
            ChannelUpdateError::ForbiddenError => "Forbidden".to_string(),
            ChannelUpdateError::UnexpectedError(e) => e.clone(),
        }
    }
}

impl ChannelUpdateError {
    /// Only the owner of the channel's server may change it.
    pub fn check_owner(is_owner: bool) -> (res: Result<(), ChannelUpdateError>)
        ensures
            is_owner ==> res is Ok,
            !is_owner ==> res matches Err(ChannelUpdateError::ForbiddenError),
    {
        if is_owner {
            Ok(())
        } else {
            Err(ChannelUpdateError::ForbiddenError)
        }
    }
}

/// The event that tells the websocket service about the changed channel.
pub fn updated_event(channel_id: u128) -> (event: BrokerEvent)
    ensures
        event == (BrokerEvent::UpdateChannel { channel_id }),
{
    BrokerEvent::UpdateChannel { channel_id }
}

} // verus!
