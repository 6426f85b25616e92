//! `PUT /servers/{id}`: join a server.

use vstd::prelude::*;
use crate::websocket::messages::BrokerEvent;

verus! {

/// Why the user cannot join a server.
pub enum JoinError {
    /// The server id is malformed; the text is the parser's report.
    ValidationError(String),
    /// The user is already a member.
    AlreadyJoinedError,
    /// An unexpected failure; the text describes it.
    UnexpectedError(String),
}

impl JoinError {
    /// The HTTP status of the error.
    pub fn status_code(&self) -> (code: u16)
        ensures
            code == (match self {
                JoinError::ValidationError(_) => 400u16,
                JoinError::AlreadyJoinedError => 204u16,
                JoinError::UnexpectedError(_) => 500u16,
            }),
    {
        match self {
            JoinError::ValidationError(_) => 400,
            JoinError::AlreadyJoinedError => 204,
            JoinError::UnexpectedError(_) => 500,
        }
    }

    /// The error's message.
    pub fn message(&self) -> (m: String)
        ensures
            m@ == (match self {
                JoinError::ValidationError(_) => "Server id has an invalid format!"@,
                JoinError::AlreadyJoinedError => "User is already member of that server"@,
                JoinError::UnexpectedError(e) => e@,
            }),
    {
        match self {
            JoinError::ValidationError(_) => "Server id has an invalid format!".to_string(),
            JoinError::AlreadyJoinedError => "User is already member of that server".to_string(),
            JoinError::UnexpectedError(e) => e.clone(),
        }
    }
}

/// The database code of a unique-key violation.
pub open spec fn unique_violation_code() -> Seq<char> {
    "23505"@
}

/// The description of a failed membership insert.
pub open spec fn insert_failed_message() -> Seq<char> {
    "Failed to insert new users_servers entry in the database"@
}

impl JoinError {
    /// The error for a membership insert that the database refused with
    /// `code`: an existing membership (a unique-key violation) means the user
    /// already joined; any other refusal is unexpected.
    pub fn from_insert_failure(code: &str) -> (err: JoinError)
        ensures
            code@ == unique_violation_code() ==> err matches JoinError::AlreadyJoinedError,
            code@ != unique_violation_code() ==> (err matches JoinError::UnexpectedError(m) && m@ == insert_failed_message()),
    {
        if crate::text::same_text(code, "23505") {
            JoinError::AlreadyJoinedError
        } else {
            JoinError::UnexpectedError("Failed to insert new users_servers entry in the database".to_string())
        }
    }
}

/// The events that tell the websocket service about the new membership:
/// first the server for the joining user, then the user for the members.
pub fn joined_events(user_id: u128, server_id: u128) -> (events: Vec<BrokerEvent>)
    ensures
        events@ == seq![BrokerEvent::NewServer { user_id, server_id }, BrokerEvent::NewUser { user_id, server_id }],
{
    let mut events: Vec<BrokerEvent> = Vec::new();
    events.push(BrokerEvent::NewServer { user_id, server_id });
    events.push(BrokerEvent::NewUser { user_id, server_id });
    proof {
        assert(events@ =~= seq![BrokerEvent::NewServer { user_id, server_id }, BrokerEvent::NewUser { user_id, server_id }]);
    }
    events
}

} // verus!
