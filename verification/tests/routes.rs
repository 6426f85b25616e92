use ferrum::routes::flow::{next_step, RequestAction, RequestEvent, RequestStage};
use ferrum::domain::channels::{NewChannel, UpdateChannel};
use ferrum::domain::messages::NewMessage;
use ferrum::domain::servers::{NewServer, UpdateServer};
use ferrum::domain::users::{NewUser, UpdateUser, UserModel, UserPassword};
use ferrum::routes::channels::create_message::{self, CreateMessageError};
use ferrum::routes::channels::delete::DeleteChannelError;
use ferrum::routes::channels::get_messages::GetMessagesError;
use ferrum::routes::channels::update::{self as channel_update, ChannelUpdateError};
use ferrum::routes::login::{self, validate_credentials, LoginError, LoginUser};
use ferrum::routes::register::{self, RegisterError};
use ferrum::routes::servers::create::{self, CreateError};
use ferrum::routes::servers::create_channel::{self, CreateChannelError};
use ferrum::routes::servers::delete::DeleteServerError;
use ferrum::routes::servers::get::GetServerError;
use ferrum::routes::servers::get_invites::GetInvitesError;
use ferrum::routes::servers::join::{joined_events, JoinError};
use ferrum::routes::servers::leave::LeaveError;
use ferrum::routes::servers::update::{self as server_update, ServerUpdateError};
use ferrum::routes::users::current_user::UsersError;
use ferrum::routes::users::current_user_servers::CurrentUserServersError;
use ferrum::routes::users::update::{self as user_update, UserUpdateError, UserWrite};
use ferrum::websocket::messages::BrokerEvent;

fn stored_user(password: &str) -> UserModel {
    let hash = UserPassword::parse(password.to_string()).unwrap().as_str().to_string();
    UserModel {
        id: 5,
        username: "foobar".to_string(),
        password: hash,
        email: "foo@bar.com".to_string(),
        updated_at: 0,
        created_at: 0,
    }
}

#[test]
fn login_accepts_right_password_only() {
    let user = stored_user("foobar123");
    let ok = validate_credentials(
        LoginUser::from(login::BodyData { email: "foo@bar.com".to_string(), password: "foobar123".to_string() }),
        Some(user),
    );
    assert_eq!(ok.ok(), Some((5, "foo@bar.com".to_string())));
    let user = stored_user("foobar123");
    let wrong = validate_credentials(
        LoginUser { email: "foo@bar.com".to_string(), password: "nope".to_string() },
        Some(user),
    );
    assert!(matches!(wrong, Err(LoginError::LoginFailed)));
    let unknown = validate_credentials(LoginUser { email: "x@y.z".to_string(), password: "p".to_string() }, None);
    assert!(matches!(unknown, Err(LoginError::LoginFailed)));
    assert_eq!(LoginError::LoginFailed.status_code(), 401);
    assert_eq!(LoginError::LoginFailed.message(), "Login failed");
    assert_eq!(LoginError::UnexpectedError("x".to_string()).status_code(), 500);
}

#[test]
fn registration_reports_first_invalid_field() {
    let body = |name: &str, email: &str, password: &str| register::BodyData {
        name: name.to_string(),
        email: email.to_string(),
        password: password.to_string(),
    };
    assert_eq!(NewUser::try_from(body("ab", "foobar.com", "x")).err().unwrap(), "ab is not a valid user name!");
    assert_eq!(
        NewUser::try_from(body("foobar", "foobar.com", "x")).err().unwrap(),
        "foobar.com is not a valid user email!"
    );
    assert_eq!(NewUser::try_from(body("foobar", "foo@bar.com", "x")).err().unwrap(), "Invalid user password!");
    let user = NewUser::try_from(body("foobar", "foo@bar.com", "foobar123")).ok().unwrap();
    assert_eq!(user.name.as_str(), "foobar");
    assert_eq!(user.email.as_str(), "foo@bar.com");
    assert_eq!(RegisterError::ValidationError("v".to_string()).status_code(), 400);
    assert_eq!(RegisterError::UnexpectedError("u".to_string()).status_code(), 500);
    assert_eq!(RegisterError::ValidationError("v".to_string()).message(), "v");
}

#[test]
fn user_update_validates_given_fields() {
    let body = user_update::BodyData {
        name: None,
        email: Some("nope".to_string()),
        password: None,
        current_password: "pw".to_string(),
    };
    assert_eq!(UpdateUser::try_from(body).err().unwrap(), "nope is not a valid user email!");
    let body = user_update::BodyData { name: None, email: None, password: None, current_password: "pw".to_string() };
    let update = UpdateUser::try_from(body).ok().unwrap();
    assert!(update.name.is_none() && update.email.is_none() && update.password.is_none());
    assert_eq!(update.current_password, "pw");
    let user = stored_user("foobar123");
    assert!(UserUpdateError::check_current_password(user.password.clone(), "foobar123".to_string()).is_ok());
    assert!(matches!(
        UserUpdateError::check_current_password(user.password, "wrong".to_string()),
        Err(UserUpdateError::WrongPasswordError)
    ));
    assert_eq!(UserUpdateError::WrongPasswordError.status_code(), 403);
    assert_eq!(UserUpdateError::WrongPasswordError.message(), "Wrong password");
}

#[test]
fn server_bodies_and_checks() {
    assert!(NewServer::try_from(create::BodyData { name: "abc".to_string() }).is_err());
    let s = NewServer::try_from(create::BodyData { name: " my server ".to_string() }).ok().unwrap();
    assert_eq!(s.name.as_str(), "my server");
    let u = UpdateServer::try_from(server_update::BodyData { name: None }).ok().unwrap();
    assert!(u.name.is_none());
    assert!(UpdateServer::try_from(server_update::BodyData { name: Some("ab".to_string()) }).is_err());
    assert!(matches!(ServerUpdateError::check_owner(false), Err(ServerUpdateError::ForbiddenError)));
    assert!(ServerUpdateError::check_owner(true).is_ok());
    assert_eq!(ServerUpdateError::ForbiddenError.status_code(), 403);
    assert_eq!(CreateError::ValidationError("v".to_string()).status_code(), 400);
    assert!(matches!(DeleteServerError::check_owner(false), Err(DeleteServerError::ForbiddenError)));
    assert!(matches!(GetServerError::check_membership(false), Err(GetServerError::ForbiddenError)));
    assert!(matches!(GetInvitesError::check_owner(false), Err(GetInvitesError::ForbiddenError)));
    assert_eq!(GetServerError::ForbiddenError.message(), "Forbidden");
    assert!(matches!(create::created_event(1, 2), BrokerEvent::NewServer { user_id: 1, server_id: 2 }));
}

#[test]
fn joining_twice_is_no_content() {
    let err = JoinError::from_insert_failure("23505");
    assert!(matches!(err, JoinError::AlreadyJoinedError));
    assert_eq!(err.status_code(), 204);
    assert_eq!(err.message(), "User is already member of that server");
    let other = JoinError::from_insert_failure("23503");
    assert_eq!(other.status_code(), 500);
    assert_eq!(other.message(), "Failed to insert new users_servers entry in the database");
    let events = joined_events(1, 2);
    assert_eq!(events.len(), 2);
    assert!(matches!(events[0], BrokerEvent::NewServer { user_id: 1, server_id: 2 }));
    assert!(matches!(events[1], BrokerEvent::NewUser { user_id: 1, server_id: 2 }));
}

#[test]
fn owner_cannot_leave() {
    assert!(matches!(LeaveError::check_not_owner(1, 1), Err(LeaveError::UserIsOwnerError)));
    assert!(LeaveError::check_not_owner(1, 2).is_ok());
    assert!(matches!(LeaveError::check_was_member(false), Err(LeaveError::NotOnServerError)));
    assert_eq!(LeaveError::UserIsOwnerError.status_code(), 400);
    assert_eq!(LeaveError::NotOnServerError.message(), "User is not a member of this server");
}

#[test]
fn channel_bodies_and_checks() {
    assert!(NewChannel::try_from(create_channel::BodyData { name: "abc".to_string() }).is_err());
    assert!(NewChannel::try_from(create_channel::BodyData { name: "general".to_string() }).is_ok());
    assert!(matches!(CreateChannelError::check_owner(false), Err(CreateChannelError::ForbiddenError)));
    let u = UpdateChannel::try_from(channel_update::BodyData { name: Some("general".to_string()) }).ok().unwrap();
    assert_eq!(u.name.unwrap().as_str(), "general");
    assert!(matches!(ChannelUpdateError::check_owner(false), Err(ChannelUpdateError::ForbiddenError)));
    assert!(matches!(DeleteChannelError::check_owner(false), Err(DeleteChannelError::ForbiddenError)));
    assert!(NewMessage::try_from(create_message::BodyData { content: "".to_string() }).is_err());
    assert!(NewMessage::try_from(create_message::BodyData { content: "hi".to_string() }).is_ok());
    let denied = CreateMessageError::check_access(Err("no rows".to_string()));
    assert!(matches!(denied, Err(CreateMessageError::ForbiddenError(ref e)) if e == "no rows"));
    let err = denied.err().unwrap();
    assert_eq!(err.status_code(), 403);
    assert_eq!(err.message(), "Forbidden");
    assert!(GetMessagesError::check_access(Ok(())).is_ok());
    assert!(matches!(
        create_message::created_event(3, 4),
        BrokerEvent::NewMessage { channel_id: 3, message_id: 4 }
    ));
}

#[test]
fn user_route_errors() {
    assert_eq!(UsersError::UnauthorizedError.status_code(), 401);
    assert_eq!(UsersError::UnauthorizedError.message(), "Unauthorized");
    let e = CurrentUserServersError::UnexpectedError("Failed to retrieve server users".to_string());
    assert_eq!(e.status_code(), 500);
    assert_eq!(e.message(), "Failed to retrieve server users");
}

#[test]
fn request_flow_refusal_ends_the_request() {
    let (stage, action) = next_step(RequestStage::Checking, RequestEvent::Checked(Err(403u16)), true);
    assert!(stage == RequestStage::Done);
    assert!(matches!(action, RequestAction::Refuse(403)));
}

#[test]
fn request_flow_checks_then_writes_then_publishes() {
    let (stage, action) = next_step(RequestStage::Checking, RequestEvent::<u16>::Checked(Ok(())), true);
    assert!(stage == RequestStage::Writing);
    assert!(matches!(action, RequestAction::Write));
    let (stage, action) = next_step(stage, RequestEvent::<u16>::Written(Ok(())), true);
    assert!(stage == RequestStage::Publishing);
    assert!(matches!(action, RequestAction::Publish));
    let (stage, action) = next_step(stage, RequestEvent::<u16>::Published, true);
    assert!(stage == RequestStage::Done);
    assert!(matches!(action, RequestAction::Succeed));
    let (stage, action) = next_step(RequestStage::Writing, RequestEvent::Written(Err(500u16)), true);
    assert!(stage == RequestStage::Done);
    assert!(matches!(action, RequestAction::Refuse(500)));
}

#[test]
fn request_flow_without_event_succeeds_after_the_write() {
    let (stage, action) = next_step(RequestStage::Writing, RequestEvent::<u16>::Written(Ok(())), false);
    assert!(stage == RequestStage::Done);
    assert!(matches!(action, RequestAction::Succeed));
    let (stage, action) = next_step(RequestStage::Checking, RequestEvent::Checked(Err(401u16)), false);
    assert!(stage == RequestStage::Done);
    assert!(matches!(action, RequestAction::Refuse(401)));
}

#[test]
fn user_update_writes_given_fields_in_order() {
    let body = user_update::BodyData {
        name: Some("newname".to_string()),
        email: None,
        password: Some("new password".to_string()),
        current_password: "pw".to_string(),
    };
    let writes = UpdateUser::try_from(body).ok().unwrap().writes();
    assert_eq!(writes.len(), 2);
    assert!(matches!(&writes[0], UserWrite::Name(n) if n.as_str() == "newname"));
    assert!(matches!(&writes[1], UserWrite::Password(_)));
    let body = user_update::BodyData { name: None, email: None, password: None, current_password: "pw".to_string() };
    assert!(UpdateUser::try_from(body).ok().unwrap().writes().is_empty());
}
