//! `POST /channels/{id}/messages`: post a message to a channel the user can read.

use vstd::prelude::*;
use crate::domain::messages::{NewMessage, MessageContent, message_content_parsed};
use crate::websocket::messages::BrokerEvent;

verus! {

/// The request body.
pub struct BodyData {
    pub content: String,
}

impl NewMessage {
    /// Validate a message body: its content must be valid message content.
    pub fn try_from(value: BodyData) -> (res: Result<NewMessage, String>)
        ensures
            match res {
                Ok(m) => message_content_parsed(value.content@, Ok(m.content)),
                Err(e) => message_content_parsed(value.content@, Err(e)),
            },
    {
        match MessageContent::parse(value.content) {
            Ok(content) => Ok(NewMessage { content }),
            Err(e) => Err(e),
        }
    }
}

/// Why a message cannot be posted.
pub enum CreateMessageError {
    /// Invalid data was supplied in the request; the text says why.
    ValidationError(String),
    /// The user cannot write to the channel; the text is the database's report.
    ForbiddenError(String),
    /// An unexpected failure; the text describes it.
    UnexpectedError(String),
}

impl CreateMessageError {
    /// The HTTP status of the error.
    pub fn status_code(&self) -> (code: u16)
        ensures
            code == (match self {
                CreateMessageError::ValidationError(_) => 400u16,
                CreateMessageError::ForbiddenError(_) => 403u16,
                CreateMessageError::UnexpectedError(_) => 500u16,
            }),
    {
        match self {
            CreateMessageError::ValidationError(_) => 400,
            CreateMessageError::ForbiddenError(_) => 403,
            CreateMessageError::UnexpectedError(_) => 500,
        }
    }

    /// The error's message.
    pub fn message(&self) -> (m: String)
        ensures
            m@ == (match self {
                CreateMessageError::ValidationError(e) => e@,
                CreateMessageError::ForbiddenError(_) => "Forbidden"@,
                CreateMessageError::UnexpectedError(e) => e@,
            }),
    {
        match self {
            CreateMessageError::ValidationError(e) => e.clone(),
            CreateMessageError::ForbiddenError(_) => "Forbidden".to_string(),
            CreateMessageError::UnexpectedError(e) => e.clone(),
        }
    }
}

impl CreateMessageError {
    /// The outcome of the channel access check: a refusal by the database
    /// (no membership row) forbids the request and keeps the database's report.
    pub fn check_access(access: Result<(), String>) -> (res: Result<(), CreateMessageError>)
        ensures
            match access {
                Ok(()) => res is Ok,
                Err(e) => res matches Err(CreateMessageError::ForbiddenError(r)) && r == e,
            },
    {
        match access {
            Ok(()) => Ok(()),
            Err(e) => Err(CreateMessageError::ForbiddenError(e)),
        }
    }
}

/// The event that tells the websocket service about the new message.
pub fn created_event(channel_id: u128, message_id: u128) -> (event: BrokerEvent)
    ensures
        event == (BrokerEvent::NewMessage { channel_id, message_id }),
{
    BrokerEvent::NewMessage { channel_id, message_id }
}

} // verus!
