//! Message contents, the validated data to post a message, and the message
//! records.

use vstd::prelude::*;
use crate::validation::length_in_range;
use crate::domain::users::{UserModel, UserResponse};

verus! {

/// Smallest number of characters of a message.
pub const MESSAGE_CONTENT_MIN: u64 = 1;

/// Largest number of characters of a message.
pub const MESSAGE_CONTENT_MAX: u64 = 1000;

/// Whether `s` is acceptable message content.
pub open spec fn is_valid_message_content(s: Seq<char>) -> bool {
    MESSAGE_CONTENT_MIN <= s.len() <= MESSAGE_CONTENT_MAX
}

/// The message with which invalid content is rejected.
pub open spec fn invalid_message_content_message(s: Seq<char>) -> Seq<char> {
    s + " is not a valid message content!"@
}

/// Message content of 1 to 1000 characters.
pub struct MessageContent {
    value: String,
}

impl View for MessageContent {
    type V = Seq<char>;

    closed spec fn view(&self) -> Seq<char> {
        self.value@
    }
}

/// What parsing `value` as message content gives.
pub open spec fn message_content_parsed(value: Seq<char>, res: Result<MessageContent, String>) -> bool {
    if is_valid_message_content(value) {
        res matches Ok(content) && content@ == value
    } else {
        res matches Err(msg) && msg@ == invalid_message_content_message(value)
    }
}

impl MessageContent {
    /// Parse message content, accepting exactly the values of 1 to 1000 characters.
    pub fn parse(value: String) -> (res: Result<MessageContent, String>)
        ensures
            message_content_parsed(value@, res),
    {
        if length_in_range(value.as_str(), MESSAGE_CONTENT_MIN, MESSAGE_CONTENT_MAX) {
            Ok(MessageContent { value })
        } else {
            Err(value.concat(" is not a valid message content!"))
        }
    }

    /// The validated content.
    pub fn as_str(&self) -> (s: &str)
        ensures
            s@ == self@,
            is_valid_message_content(s@),
    {
        proof {
            use_type_invariant(self);
        }
        self.value.as_str()
    }

    /// The validated content, as its `Display` shows it.
    pub fn to_string(&self) -> (s: String)
        ensures
            s@ == self@,
    {
        self.value.clone()
    }


    #[verifier::type_invariant]
    spec fn inv(&self) -> bool {
        is_valid_message_content(self.value@)
    }
}

/// Validated data to post a new message.
pub struct NewMessage {
    pub content: MessageContent,
}

/// A message as stored.
pub struct MessageModel {
    pub id: u128,
    pub channel_id: u128,
    pub user_id: u128,
    pub content: String,
    pub updated_at: i64,
    pub created_at: i64,
}

/// A message as sent to clients, with its author.
pub struct MessageResponse {
    pub id: u128,
    pub channel_id: u128,
    pub user: UserResponse,
    pub content: String,
    pub updated_at: i64,
    pub created_at: i64,
}

/// The response for `message` written by `user`.
pub open spec fn is_message_response(res: MessageResponse, message: MessageModel, user: UserModel) -> bool {
    &&& res.id == message.id
    &&& res.channel_id == message.channel_id
    &&& res.content == message.content
    &&& res.updated_at == message.updated_at
    &&& res.created_at == message.created_at
    &&& res.user.id == user.id
    &&& res.user.username == user.username
    &&& res.user.updated_at == user.updated_at
    &&& res.user.created_at == user.created_at
}

impl MessageModel {
    /// The response for this message, written by `user`.
    pub fn to_response(&self, user: UserModel) -> (res: MessageResponse)
        ensures
            is_message_response(res, *self, user),
    {
        MessageResponse {
            id: self.id,
            channel_id: self.channel_id,
            user: UserResponse::from(user),
            content: self.content.clone(),
            updated_at: self.updated_at,
            created_at: self.created_at,
        }
    }
}

impl MessageResponse {
    /// The response for `message`, written by `user`.
    pub fn new(message: &MessageModel, user: &UserModel) -> (res: MessageResponse)
        ensures
            is_message_response(res, *message, *user),
    {
        MessageResponse {
            id: message.id,
            channel_id: message.channel_id,
            user: UserResponse {
                id: user.id,
                username: user.username.clone(),
                updated_at: user.updated_at,
                created_at: user.created_at,
            },
            content: message.content.clone(),
            updated_at: message.updated_at,
            created_at: message.created_at,
        }
    }
}

/// Acceptable content parses to content with exactly that text.
pub proof fn lemma_message_content_reparses(s: Seq<char>, res: Result<MessageContent, String>)
    requires
        is_valid_message_content(s),
        message_content_parsed(s, res),
    ensures
        res matches Ok(content) && content@ == s,
{
}

} // verus!
