//! Messages of the websocket service: broker events from the REST service,
//! messages from the server to a session, and messages to and from clients.

use vstd::prelude::*;
use crate::domain::channels::ChannelResponse;
use crate::domain::messages::MessageResponse;
use crate::domain::servers::ServerResponse;
use crate::domain::users::UserResponse;

verus! {

/// An event the REST service publishes for the websocket service.
pub enum BrokerEvent {
    NewChannel { channel_id: u128 },
    NewServer { user_id: u128, server_id: u128 },
    NewUser { user_id: u128, server_id: u128 },
    UserLeft { user_id: u128, server_id: u128 },
    DeleteServer { server_id: u128 },
    UpdateServer { server_id: u128 },
    NewMessage { channel_id: u128, message_id: u128 },
    DeleteChannel { server_id: u128, channel_id: u128 },
    UpdateChannel { channel_id: u128 },
}

/// A message sent to and from the websocket client.
pub enum SerializedWebSocketMessage {
    /// Sent periodically by the client; answered with `Pong`.
    Ping,
    /// The answer to `Ping`.
    Pong,
    /// Tells the client that the handshake succeeded.
    Ready,
    /// Sent by the client to authenticate.
    Identify { bearer: String },
    NewMessage { message: MessageResponse },
    NewChannel { channel: ChannelResponse },
    NewServer { server: ServerResponse, channels: Vec<ChannelResponse>, users: Vec<UserResponse> },
    NewUser { server_id: u128, user: UserResponse },
    DeleteUser { server_id: u128, user_id: u128 },
    DeleteServer { server_id: u128 },
    DeleteChannel { channel_id: u128 },
    UpdateServer { server: ServerResponse },
}

/// A message from the websocket server to one session.
pub enum WebSocketSessionMessage {
    /// The servers the session's user belongs to.
    Ready(Vec<u128>),
    AddMessage(MessageResponse),
    AddChannel(ChannelResponse),
    AddServer(ServerResponse, Vec<ChannelResponse>, Vec<UserResponse>),
    /// A user joined the server: (server, user).
    AddUser(u128, UserResponse),
    DeleteServer(u128),
    DeleteChannel(u128),
    /// A user left a server: (user, server).
    DeleteUser(u128, u128),
    UpdateServer(ServerResponse),
}

/// Tells the websocket server that the session of a user closed.
pub struct WebSocketClose {
    pub user_id: u128,
}

impl WebSocketClose {
    pub fn new(user_id: u128) -> (msg: WebSocketClose)
        ensures
            msg.user_id == user_id,
    {
        WebSocketClose { user_id }
    }
}

/// Tells the websocket server which user a session belongs to.
pub struct IdentifyUser {
    pub user_id: u128,
    /// The session's handle.
    pub session: u64,
}

/// The channels a user can read.
pub struct ReadyUser {
    pub channels: Vec<u128>,
}

/// A message and the sessions it goes to, in order.
pub struct Delivery {
    pub recipients: Vec<u64>,
    pub message: WebSocketSessionMessage,
}

} // verus!
