//! The state of one websocket connection: the user it identified as and the
//! servers that user belongs to, and what the connection does with each
//! message from its client and from the websocket server.

use vstd::prelude::*;
use std::collections::HashSet;
use crate::jwt::{Claims, Jwt, token_claims};
use crate::websocket::messages::{IdentifyUser, SerializedWebSocketMessage, WebSocketClose,
    WebSocketSessionMessage};

verus! {

broadcast use vstd::std_specs::hash::group_hash_axioms;

/// What a session does with a message from its client.
pub enum ClientAction {
    /// Send this message back to the client.
    Reply(SerializedWebSocketMessage),
    /// Check this bearer token and identify with its claims.
    Authenticate(String),
    /// Nothing.
    Ignore,
}

/// The state of one websocket connection.
pub struct WebSocketSession {
    user_id: Option<u128>,
    servers: HashSet<u128>,
    jwt: Jwt,
}

/// The message of a failed identification.
pub open spec fn claims_missing_message() -> Seq<char> {
    "Failed to get claims for bearer token"@
}

impl WebSocketSession {
    /// The user the session identified as, if any.
    pub closed spec fn user(&self) -> Option<u128> {
        self.user_id
    }

    /// The servers the session's user belongs to.
    pub closed spec fn server_set(&self) -> Set<u128> {
        self.servers@
    }

    /// The secret the session checks tokens with.
    pub closed spec fn secret(&self) -> Seq<char> {
        self.jwt@
    }

    /// A fresh connection: not identified, belonging to no server.
    pub fn new(jwt: Jwt) -> (session: WebSocketSession)
        ensures
            session.user() is None,
            session.server_set() == Set::<u128>::empty(),
            session.secret() == jwt@,
    {
        WebSocketSession { user_id: None, servers: HashSet::new(), jwt }
    }

    /// The token helper of this session.
    pub fn jwt(&self) -> (jwt: &Jwt)
        ensures
            jwt@ == self.secret(),
    {
        &self.jwt
    }

    /// The user the session identified as, if any.
    pub fn user_id(&self) -> (u: Option<u128>)
        ensures
            u == self.user(),
    {
        self.user_id
    }

    /// Whether the session's user belongs to `server_id`.
    pub fn has_server(&self, server_id: u128) -> (b: bool)
        ensures
            b == self.server_set().contains(server_id),
    {
        self.servers.contains(&server_id)
    }

    /// A message from the client: a ping is answered with a pong, an
    /// identification asks for its token to be checked, everything else is
    /// ignored.
    pub fn on_client_message(&self, msg: SerializedWebSocketMessage) -> (action: ClientAction)
        ensures
            match msg {
                SerializedWebSocketMessage::Ping => action matches ClientAction::Reply(SerializedWebSocketMessage::Pong),
                SerializedWebSocketMessage::Identify { bearer } => action == ClientAction::Authenticate(bearer),
                _ => action matches ClientAction::Ignore,
            },
    {
        match msg {
            SerializedWebSocketMessage::Ping => ClientAction::Reply(SerializedWebSocketMessage::Pong),
            SerializedWebSocketMessage::Identify { bearer } => ClientAction::Authenticate(bearer),
            _ => ClientAction::Ignore,
        }
    }

    /// The outcome of checking an identification token: with claims, the
    /// session becomes the claimed user and tells the websocket server so;
    /// without, identification fails and the session is unchanged.
    pub fn on_claims(&mut self, claims: Option<Claims>, session: u64) -> (res: Result<IdentifyUser, String>)
        ensures
            final(self).server_set() == old(self).server_set(),
            final(self).secret() == old(self).secret(),
            match claims {
                Some(c) => final(self).user() == Some(c.id) && (res matches Ok(msg) && msg.user_id == c.id
                    && msg.session == session),
                None => final(self).user() == old(self).user() && (res matches Err(m) && m@
                    == claims_missing_message()),
            },
    {
        match claims {
            Some(c) => {
                self.user_id = Some(c.id);
                Ok(IdentifyUser { user_id: c.id, session })
            },
            None => Err("Failed to get claims for bearer token".to_string()),
        }
    }

    /// An identification with `bearer`: the token is checked with the
    /// session's secret, and with its claims the session becomes the claimed
    /// user and tells the websocket server so; without, identification fails
    /// and the session is unchanged.
    pub fn on_identify(&mut self, bearer: &str, session: u64) -> (res: Result<IdentifyUser, String>)
        ensures
            final(self).server_set() == old(self).server_set(),
            final(self).secret() == old(self).secret(),
            match token_claims(bearer@, old(self).secret()) {
                Some(c) => final(self).user() == Some(c.0) && (res matches Ok(msg) && msg.user_id == c.0
                    && msg.session == session),
                None => final(self).user() == old(self).user() && (res matches Err(m) && m@
                    == claims_missing_message()),
            },
    {
        let claims = self.jwt.get_claims(bearer);
        self.on_claims(claims, session)
    }

    /// The client closed the connection: an identified session tells the
    /// websocket server which user left.
    pub fn on_close(&self) -> (msg: Option<WebSocketClose>)
        ensures
            match self.user() {
                Some(u) => msg matches Some(close) && close.user_id == u,
                None => msg is None,
            },
    {
        match self.user_id {
            Some(u) => Some(WebSocketClose::new(u)),
            None => None,
        }
    }

    /// A message from the websocket server, and what the client is sent
    /// for it. The session keeps track of its user's servers: `Ready` sets
    /// them, `AddServer` adds one, and `DeleteServer` removes one and is
    /// passed on only if the server was the user's.
    pub fn on_session_message(&mut self, msg: WebSocketSessionMessage) -> (out: Option<SerializedWebSocketMessage>)
        ensures
            final(self).user() == old(self).user(),
            final(self).secret() == old(self).secret(),
            match msg {
                WebSocketSessionMessage::Ready(servers) => final(self).server_set() == servers@.to_set()
                    && out == Some(SerializedWebSocketMessage::Ready),
                WebSocketSessionMessage::AddMessage(message) => final(self).server_set() == old(self).server_set()
                    && out == Some(SerializedWebSocketMessage::NewMessage { message }),
                WebSocketSessionMessage::AddChannel(channel) => final(self).server_set() == old(self).server_set()
                    && out == Some(SerializedWebSocketMessage::NewChannel { channel }),
                WebSocketSessionMessage::AddServer(server, channels, users) => final(self).server_set()
                    == old(self).server_set().insert(server.id) && out == Some(
                    SerializedWebSocketMessage::NewServer { server, channels, users },
                ),
                WebSocketSessionMessage::AddUser(server_id, user) => final(self).server_set() == old(self).server_set()
                    && out == Some(SerializedWebSocketMessage::NewUser { server_id, user }),
                WebSocketSessionMessage::DeleteUser(user_id, server_id) => final(self).server_set()
                    == old(self).server_set() && out == Some(
                    SerializedWebSocketMessage::DeleteUser { server_id, user_id },
                ),
                WebSocketSessionMessage::DeleteServer(server_id) => final(self).server_set()
                    == old(self).server_set().remove(server_id) && (if old(self).server_set().contains(server_id) {
                    out == Some(SerializedWebSocketMessage::DeleteServer { server_id })
                } else {
                    out is None
                }),
                WebSocketSessionMessage::DeleteChannel(channel_id) => final(self).server_set()
                    == old(self).server_set() && out == Some(
                    SerializedWebSocketMessage::DeleteChannel { channel_id },
                ),
                WebSocketSessionMessage::UpdateServer(server) => final(self).server_set() == old(self).server_set()
                    && out == Some(SerializedWebSocketMessage::UpdateServer { server }),
            },
    {
        match msg {
            WebSocketSessionMessage::Ready(servers) => {
                let mut set: HashSet<u128> = HashSet::new();
                let n = servers.len();
                let mut i: usize = 0;
                while i < n
                    invariant
                        n == servers@.len(),
                        i <= n,
                        set@ == servers@.take(i as int).to_set(),
                    decreases n - i,
                {
                    proof {
                        assert(servers@.take(i + 1) =~= servers@.take(i as int).push(servers@[i as int]));
                        servers@.take(i as int).lemma_push_to_set_commute(servers@[i as int]);
                    }
                    set.insert(servers[i]);
                    i = i + 1;
                }
                assert(servers@.take(n as int) =~= servers@);
                self.servers = set;
                Some(SerializedWebSocketMessage::Ready)
            },
            WebSocketSessionMessage::AddMessage(message) => Some(SerializedWebSocketMessage::NewMessage { message }),
            WebSocketSessionMessage::AddChannel(channel) => Some(SerializedWebSocketMessage::NewChannel { channel }),
            WebSocketSessionMessage::AddServer(server, channels, users) => {
                self.servers.insert(server.id);
                Some(SerializedWebSocketMessage::NewServer { server, channels, users })
            },
            WebSocketSessionMessage::AddUser(server_id, user) => Some(SerializedWebSocketMessage::NewUser { server_id, user }),
            WebSocketSessionMessage::DeleteUser(user_id, server_id) => Some(SerializedWebSocketMessage::DeleteUser { server_id, user_id }),
            WebSocketSessionMessage::DeleteServer(server_id) => {
                if self.servers.remove(&server_id) {
                    Some(SerializedWebSocketMessage::DeleteServer { server_id })
                } else {
                    None
                }
            },
            WebSocketSessionMessage::DeleteChannel(channel_id) => Some(SerializedWebSocketMessage::DeleteChannel { channel_id }),
            WebSocketSessionMessage::UpdateServer(server) => Some(SerializedWebSocketMessage::UpdateServer { server }),
        }
    }
}

/// A server that the session was just given is announced when it is then
/// deleted, and afterwards the session no longer holds it; deleting a server
/// the session does not hold is not announced and changes nothing.
pub proof fn lemma_add_then_delete_server(servers: Set<u128>, server_id: u128)
    ensures
        servers.insert(server_id).contains(server_id),
        !servers.insert(server_id).remove(server_id).contains(server_id),
        !servers.contains(server_id) ==> servers.remove(server_id) == servers,
{
    if !servers.contains(server_id) {
        assert(servers.remove(server_id) =~= servers);
    }
}

} // verus!
