//! Channel names, the validated data to create or update a channel, and the
//! channel records.

use vstd::prelude::*;
use crate::validation::length_in_range;

verus! {

/// Smallest number of characters of a channel name.
pub const CHANNEL_NAME_MIN: u64 = 4;

/// Largest number of characters of a channel name.
pub const CHANNEL_NAME_MAX: u64 = 32;

/// Whether `s` is an acceptable channel name.
pub open spec fn is_valid_channel_name(s: Seq<char>) -> bool {
    CHANNEL_NAME_MIN <= s.len() <= CHANNEL_NAME_MAX
}

/// The message with which an invalid channel name is rejected.
pub open spec fn invalid_channel_name_message(s: Seq<char>) -> Seq<char> {
    s + " is not a valid channel name!"@
}

/// A channel name of 4 to 32 characters.
pub struct ChannelName {
    value: String,
}

impl View for ChannelName {
    type V = Seq<char>;

    closed spec fn view(&self) -> Seq<char> {
        self.value@
    }
}

/// What parsing `value` as a channel name gives: the name itself when it is
/// acceptable, the rejection message otherwise.
pub open spec fn channel_name_parsed(value: Seq<char>, res: Result<ChannelName, String>) -> bool {
    if is_valid_channel_name(value) {
        res matches Ok(name) && name@ == value
    } else {
        res matches Err(msg) && msg@ == invalid_channel_name_message(value)
    }
}

impl ChannelName {
    /// Parse a channel name, accepting exactly the values of 4 to 32 characters.
    pub fn parse(value: String) -> (res: Result<ChannelName, String>)
        ensures
            channel_name_parsed(value@, res),
            res is Ok ==> is_valid_channel_name(value@),
    {
        if length_in_range(value.as_str(), CHANNEL_NAME_MIN, CHANNEL_NAME_MAX) {
            Ok(ChannelName { value })
        } else {
            Err(value.concat(" is not a valid channel name!"))
        }
    }

    /// The validated name.
    pub fn as_str(&self) -> (s: &str)
        ensures
            s@ == self@,
            is_valid_channel_name(s@),
    {
        proof {
            use_type_invariant(self);
        }
        self.value.as_str()
    }

    /// The validated name, as its `Display` shows it.
    pub fn to_string(&self) -> (s: String)
        ensures
            s@ == self@,
    {
        self.value.clone()
    }


    #[verifier::type_invariant]
    spec fn inv(&self) -> bool {
        is_valid_channel_name(self.value@)
    }
}

/// Validated data to create a new channel.
pub struct NewChannel {
    pub name: ChannelName,
}

/// Validated data to update an existing channel: the new name, if any.
pub struct UpdateChannel {
    pub name: Option<ChannelName>,
}

/// A channel as stored.
pub struct ChannelModel {
    pub id: u128,
    pub server_id: u128,
    pub name: String,
    pub updated_at: i64,
    pub created_at: i64,
}

/// A channel as sent to clients.
pub struct ChannelResponse {
    pub id: u128,
    pub server_id: u128,
    pub name: String,
    pub updated_at: i64,
    pub created_at: i64,
}

impl ChannelResponse {
    /// The response for a stored channel: every field carried over.
    pub fn from(val: ChannelModel) -> (res: ChannelResponse)
        ensures
            res.id == val.id,
            res.server_id == val.server_id,
            res.name == val.name,
            res.updated_at == val.updated_at,
            res.created_at == val.created_at,
    {
        ChannelResponse {
            id: val.id,
            server_id: val.server_id,
            name: val.name,
            updated_at: val.updated_at,
            created_at: val.created_at,
        }
    }
}

/// An acceptable channel name parses to a name with exactly that text, so
/// the text of any channel name parses back to the same name.
pub proof fn lemma_channel_name_reparses(s: Seq<char>, res: Result<ChannelName, String>)
    requires
        is_valid_channel_name(s),
        channel_name_parsed(s, res),
    ensures
        res matches Ok(name) && name@ == s,
{
}

} // verus!
