//! `POST /servers/{id}`: change a server the user owns.

use vstd::prelude::*;
use crate::domain::servers::{UpdateServer, ServerName, server_name_parsed};
use crate::websocket::messages::BrokerEvent;

verus! {

/// The request body: the new name, if it changes.
pub struct BodyData {
    pub name: Option<String>,
}

impl UpdateServer {
    /// Validate a server update body: a given name must be a valid server name.
    pub fn try_from(value: BodyData) -> (res: Result<UpdateServer, String>)
        ensures
            match value.name {
                None => res matches Ok(u) && u.name is None,
                Some(n) => match res {
                    Ok(u) => u.name matches Some(s) && server_name_parsed(n@, Ok(s)),
                    Err(m) => server_name_parsed(n@, Err(m)),
                },
            },
    {
        match value.name {
            Some(n) => match ServerName::parse(n) {
                Ok(name) => Ok(UpdateServer { name: Some(name) }),
                Err(e) => Err(e),
            },
            None => Ok(UpdateServer { name: None }),
        }
    }
}

/// Why a server cannot be changed.
pub enum ServerUpdateError {
    /// Invalid data was supplied in the request; the text says why.
    ValidationError(String),
    /// The user does not own the server.
    ForbiddenError,
    /// An unexpected failure; the text describes it.
    UnexpectedError(String),
}

impl ServerUpdateError {
    /// The HTTP status of the error.
    pub fn status_code(&self) -> (code: u16)
        ensures
            code == (match self {
                ServerUpdateError::ValidationError(_) => 400u16,
                ServerUpdateError::ForbiddenError => 403u16,
                ServerUpdateError::UnexpectedError(_) => 500u16,
            }),
    {
        match self {
            ServerUpdateError::ValidationError(_) => 400,
            ServerUpdateError::ForbiddenError => 403,
            ServerUpdateError::UnexpectedError(_) => 500,
        }
    }

    /// The error's message.
    pub fn message(&self) -> (m: String)
        ensures
            m@ == (match self {
                ServerUpdateError::ValidationError(e) => e@,
                ServerUpdateError::ForbiddenError => "Forbidden"@,
                ServerUpdateError::UnexpectedError(e) => e@,
            }),
    {
        match self {
            ServerUpdateError::ValidationError(e) => e.clone(),
            ServerUpdateError::ForbiddenError => "Forbidden".to_string(),
            ServerUpdateError::UnexpectedError(e) => e.clone(),
        }
    }
}

impl ServerUpdateError {
    /// Only the server's owner may change it.
    pub fn check_owner(is_owner: bool) -> (res: Result<(), ServerUpdateError>)
        ensures
            is_owner ==> res is Ok,
            !is_owner ==> res matches Err(ServerUpdateError::ForbiddenError),
    {
        if is_owner {
            Ok(())
        } else {
            Err(ServerUpdateError::ForbiddenError)
        }
    }
}

/// The event that tells the websocket service about the changed server.
pub fn updated_event(server_id: u128) -> (event: BrokerEvent)
    ensures
        event == (BrokerEvent::UpdateServer { server_id }),
{
    BrokerEvent::UpdateServer { server_id }
}

} // verus!
