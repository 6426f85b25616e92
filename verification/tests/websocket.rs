use ferrum::domain::servers::ServerResponse;
use ferrum::domain::users::UserResponse;
use ferrum::jwt::{Claims, Jwt};
use ferrum::websocket::messages::{
    IdentifyUser, SerializedWebSocketMessage, WebSocketClose, WebSocketSessionMessage,
};
use ferrum::websocket::dispatch::{plan_event, Audience, Fetch, FanOut};
use ferrum::websocket::messages::BrokerEvent;
use ferrum::websocket::server::WebSocketServer;
use ferrum::websocket::session::{ClientAction, WebSocketSession};

fn server_response(id: u128) -> ServerResponse {
    ServerResponse { id, name: "server".to_string(), owner_id: 1, flags: 0, updated_at: 0, created_at: 0 }
}

fn user_response(id: u128) -> UserResponse {
    UserResponse { id, username: "user".to_string(), updated_at: 0, created_at: 0 }
}

#[test]
fn identify_and_close() {
    let mut server = WebSocketServer::new();
    assert_eq!(server.session_of(1), None);
    server.handle_identify(IdentifyUser { user_id: 1, session: 10 });
    assert_eq!(server.session_of(1), Some(10));
    server.identify_user(1, 11);
    assert_eq!(server.session_of(1), Some(11));
    server.handle_close(WebSocketClose::new(1));
    assert_eq!(server.session_of(1), None);
}

#[test]
fn fan_out_reaches_connected_users_in_order() {
    let mut server = WebSocketServer::new();
    server.identify_user(1, 10);
    server.identify_user(3, 30);
    server.identify_user(4, 40);
    assert_eq!(server.recipients(&vec![4, 2, 1], None), vec![40, 10]);
    let d = server.update_server(server_response(5), &vec![1, 2, 3]);
    assert_eq!(d.recipients, vec![10, 30]);
    assert!(matches!(d.message, WebSocketSessionMessage::UpdateServer(ref s) if s.id == 5));
}

#[test]
fn joining_user_is_not_told_about_themselves() {
    let mut server = WebSocketServer::new();
    server.identify_user(1, 10);
    server.identify_user(2, 20);
    let d = server.new_user(2, 9, user_response(2), &vec![1, 2]);
    assert_eq!(d.recipients, vec![10]);
    assert!(matches!(d.message, WebSocketSessionMessage::AddUser(9, ref u) if u.id == 2));
}

#[test]
fn leaving_user_loses_server_and_others_learn() {
    let mut server = WebSocketServer::new();
    server.identify_user(1, 10);
    server.identify_user(2, 20);
    let ds = server.user_left(2, 9, &vec![1, 2]);
    assert_eq!(ds.len(), 2);
    assert_eq!(ds[0].recipients, vec![20]);
    assert!(matches!(ds[0].message, WebSocketSessionMessage::DeleteServer(9)));
    assert_eq!(ds[1].recipients, vec![10]);
    assert!(matches!(ds[1].message, WebSocketSessionMessage::DeleteUser(2, 9)));
}

#[test]
fn deleted_server_goes_to_every_session() {
    let mut server = WebSocketServer::new();
    server.identify_user(1, 10);
    server.identify_user(2, 20);
    server.identify_user(3, 30);
    let d = server.delete_server(9);
    let mut sessions = d.recipients.clone();
    sessions.sort();
    assert_eq!(sessions, vec![10, 20, 30]);
    assert!(matches!(d.message, WebSocketSessionMessage::DeleteServer(9)));
}

#[test]
fn new_server_goes_to_its_owner_only_if_connected() {
    let mut server = WebSocketServer::new();
    let d = server.new_server(1, server_response(5), vec![], vec![]);
    assert!(d.recipients.is_empty());
    server.identify_user(1, 10);
    let d = server.new_server(1, server_response(5), vec![], vec![user_response(1)]);
    assert_eq!(d.recipients, vec![10]);
    let r = server.ready(10, vec![5, 6]);
    assert_eq!(r.recipients, vec![10]);
}

#[test]
fn session_answers_ping_and_asks_to_check_identification() {
    let session = WebSocketSession::new(Jwt::new("secret".to_string()));
    assert!(matches!(
        session.on_client_message(SerializedWebSocketMessage::Ping),
        ClientAction::Reply(SerializedWebSocketMessage::Pong)
    ));
    match session.on_client_message(SerializedWebSocketMessage::Identify { bearer: "tok".to_string() }) {
        ClientAction::Authenticate(b) => assert_eq!(b, "tok"),
        _ => panic!("identification must be checked"),
    }
    assert!(matches!(session.on_client_message(SerializedWebSocketMessage::Pong), ClientAction::Ignore));
    assert_eq!(session.jwt().secret(), "secret");
}

#[test]
fn session_identifies_only_with_claims() {
    let mut session = WebSocketSession::new(Jwt::new("secret".to_string()));
    assert!(session.on_close().is_none());
    let err = session.on_claims(None, 3).err().unwrap();
    assert_eq!(err, "Failed to get claims for bearer token");
    assert_eq!(session.user_id(), None);
    let claims = Claims { id: 42, email: "a@b.c".to_string(), iat: 0 };
    let msg = session.on_claims(Some(claims), 3).ok().unwrap();
    assert_eq!((msg.user_id, msg.session), (42, 3));
    assert_eq!(session.user_id(), Some(42));
    assert_eq!(session.on_close().unwrap().user_id, 42);
}

#[test]
fn session_tracks_servers() {
    let mut session = WebSocketSession::new(Jwt::new("secret".to_string()));
    let out = session.on_session_message(WebSocketSessionMessage::Ready(vec![1, 2]));
    assert!(matches!(out, Some(SerializedWebSocketMessage::Ready)));
    assert!(session.has_server(1) && session.has_server(2) && !session.has_server(3));
    let out = session.on_session_message(WebSocketSessionMessage::DeleteServer(3));
    assert!(out.is_none());
    let out = session.on_session_message(WebSocketSessionMessage::AddServer(server_response(3), vec![], vec![]));
    assert!(matches!(out, Some(SerializedWebSocketMessage::NewServer { ref server, .. }) if server.id == 3));
    let out = session.on_session_message(WebSocketSessionMessage::DeleteServer(3));
    assert!(matches!(out, Some(SerializedWebSocketMessage::DeleteServer { server_id: 3 })));
    assert!(!session.has_server(3));
    let out = session.on_session_message(WebSocketSessionMessage::DeleteUser(7, 1));
    assert!(matches!(out, Some(SerializedWebSocketMessage::DeleteUser { server_id: 1, user_id: 7 })));
}

#[test]
fn identify_with_a_signed_token() {
    let jwt = Jwt::new("secret".to_string());
    let token = jwt.encode(7, "a@b.com".to_string(), 1);
    let mut session = WebSocketSession::new(Jwt::new("secret".to_string()));
    assert!(session.on_identify("garbage", 3).is_err());
    assert_eq!(session.user_id(), None);
    let msg = session.on_identify(&token, 3).ok().unwrap();
    assert_eq!(msg.user_id, 7);
    assert_eq!(msg.session, 3);
    assert_eq!(session.user_id(), Some(7));
}

#[test]
fn broker_events_are_planned() {
    let plan = plan_event(&BrokerEvent::NewChannel { channel_id: 5 });
    assert!(matches!(plan.fetch, Fetch::Channel(5)));
    assert!(matches!(plan.audience, Audience::FetchedChannelServerMembers));
    assert!(matches!(plan.fan_out, FanOut::NewChannel));
    let plan = plan_event(&BrokerEvent::NewUser { user_id: 1, server_id: 2 });
    assert!(matches!(plan.fetch, Fetch::User(1)));
    assert!(matches!(plan.audience, Audience::ServerMembers(2)));
    assert!(matches!(plan.fan_out, FanOut::NewUser { user_id: 1, server_id: 2 }));
    let plan = plan_event(&BrokerEvent::NewMessage { channel_id: 3, message_id: 4 });
    assert!(matches!(plan.fetch, Fetch::MessageWithAuthor(4)));
    assert!(matches!(plan.audience, Audience::ChannelMembers(3)));
    assert!(matches!(plan.fan_out, FanOut::NewMessage));
    let plan = plan_event(&BrokerEvent::DeleteServer { server_id: 9 });
    assert!(matches!(plan.fetch, Fetch::Nothing));
    assert!(matches!(plan.audience, Audience::Everyone));
    assert!(matches!(plan.fan_out, FanOut::DeleteServer { server_id: 9 }));
    let plan = plan_event(&BrokerEvent::UpdateChannel { channel_id: 9 });
    assert!(matches!(plan.audience, Audience::Nobody));
    assert!(matches!(plan.fan_out, FanOut::Ignore));
}
