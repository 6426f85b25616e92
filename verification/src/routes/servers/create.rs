//! `POST /servers`: create a server owned by the current user.

use vstd::prelude::*;
use crate::domain::servers::{NewServer, ServerName, server_name_parsed};
use crate::websocket::messages::BrokerEvent;

verus! {

/// The request body.
pub struct BodyData {
    pub name: String,
}

impl NewServer {
    /// Validate a server creation body: its name must be a valid server name.
    pub fn try_from(value: BodyData) -> (res: Result<NewServer, String>)
        ensures
            match res {
                Ok(s) => server_name_parsed(value.name@, Ok(s.name)),
                Err(m) => server_name_parsed(value.name@, Err(m)),
            },
    {
        match ServerName::parse(value.name) {
            Ok(name) => Ok(NewServer { name }),
            Err(e) => Err(e),
        }
    }
}

/// Why a server cannot be created.
pub enum CreateError {
    /// Invalid data was supplied in the request; the text says why.
    ValidationError(String),
    /// An unexpected failure; the text describes it.
    UnexpectedError(String),
}

impl CreateError {
    /// The HTTP status of the error.
    pub fn status_code(&self) -> (code: u16)
        ensures
            code == (match self {
                CreateError::ValidationError(_) => 400u16,
                CreateError::UnexpectedError(_) => 500u16,
            }),
    {
        match self {
            CreateError::ValidationError(_) => 400,
            CreateError::UnexpectedError(_) => 500,
        }
    }

    /// The error's message.
    pub fn message(&self) -> (m: String)
        ensures
            m@ == (match self {
                CreateError::ValidationError(e) => e@,
                CreateError::UnexpectedError(e) => e@,
            }),
    {
        match self {
            CreateError::ValidationError(e) => e.clone(),
            CreateError::UnexpectedError(e) => e.clone(),
        }
    }
}

/// The event that tells the websocket service about the new server, for its owner.
pub fn created_event(user_id: u128, server_id: u128) -> (event: BrokerEvent)
    ensures
        event == (BrokerEvent::NewServer { user_id, server_id }),
{
    BrokerEvent::NewServer { user_id, server_id }
}

} // verus!
