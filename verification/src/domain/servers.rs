//! Server names, the validated data to create or update a server, and the
//! server and invite records.

use vstd::prelude::*;
use crate::validation::length_in_range;
use crate::text::{trim, str_trimmed, unpadded, lemma_trimmed, lemma_unpadded_is_trimmed,
    is_ascii_alphanumeric_char, lemma_alphanumeric_ends_are_kept};

verus! {

/// Smallest number of characters of a server name.
pub const SERVER_NAME_MIN: u64 = 4;

/// Largest number of characters of a server name.
pub const SERVER_NAME_MAX: u64 = 64;

/// Whether `s` (already trimmed) is an acceptable server name.
pub open spec fn is_valid_server_name(s: Seq<char>) -> bool {
    SERVER_NAME_MIN <= s.len() <= SERVER_NAME_MAX
}

/// The message with which a server name is rejected; it quotes the trimmed value.
pub open spec fn invalid_server_name_message(trimmed: Seq<char>) -> Seq<char> {
    trimmed + " is not a valid server name!"@
}

/// A trimmed server name of 4 to 64 characters.
pub struct ServerName {
    value: String,
}

impl View for ServerName {
    type V = Seq<char>;

    closed spec fn view(&self) -> Seq<char> {
        self.value@
    }
}

/// What parsing `value` as a server name gives: the value is trimmed first,
/// and the trimmed value is kept when it is acceptable.
pub open spec fn server_name_parsed(value: Seq<char>, res: Result<ServerName, String>) -> bool {
    let t = str_trimmed(value);
    if is_valid_server_name(t) {
        res matches Ok(name) && name@ == t
    } else {
        res matches Err(msg) && msg@ == invalid_server_name_message(t)
    }
}

impl ServerName {
    /// Parse a server name: trim it, then accept it exactly when it has 4 to
    /// 64 characters.
    pub fn parse(value: String) -> (res: Result<ServerName, String>)
        ensures
            server_name_parsed(value@, res),
    {
        let t = trim(value.as_str());
        proof {
            lemma_trimmed(value@);
        }
        Self::from_trimmed(t)
    }

    /// The server name from an already trimmed value: kept when it has 4 to
    /// 64 characters.
    pub fn from_trimmed(value: &str) -> (res: Result<ServerName, String>)
        requires
            str_trimmed(value@) == value@,
        ensures
            is_valid_server_name(value@) ==> (res matches Ok(name) && name@ == value@),
            !is_valid_server_name(value@) ==> (res matches Err(msg) && msg@ == invalid_server_name_message(value@)),
    {
        if length_in_range(value, SERVER_NAME_MIN, SERVER_NAME_MAX) {
            Ok(ServerName { value: value.to_owned() })
        } else {
            Err(value.to_owned().concat(" is not a valid server name!"))
        }
    }

    /// The validated name.
    pub fn as_str(&self) -> (s: &str)
        ensures
            s@ == self@,
            is_valid_server_name(s@),
            str_trimmed(s@) == s@,
    {
        proof {
            use_type_invariant(self);
        }
        self.value.as_str()
    }

    /// The validated name, as its `Display` shows it.
    pub fn to_string(&self) -> (s: String)
        ensures
            s@ == self@,
    {
        self.value.clone()
    }


    #[verifier::type_invariant]
    spec fn inv(&self) -> bool {
        &&& is_valid_server_name(self.value@)
        &&& str_trimmed(self.value@) == self.value@
    }
}

/// Validated data to create a new server.
pub struct NewServer {
    pub name: ServerName,
}

/// Validated data to update an existing server: the new name, if any.
pub struct UpdateServer {
    pub name: Option<ServerName>,
}

/// A server as stored.
pub struct ServerModel {
    pub id: u128,
    pub name: String,
    pub owner_id: u128,
    pub flags: u32,
    pub updated_at: i64,
    pub created_at: i64,
}

/// A server as sent to clients.
pub struct ServerResponse {
    pub id: u128,
    pub name: String,
    pub owner_id: u128,
    pub flags: u32,
    pub updated_at: i64,
    pub created_at: i64,
}

impl ServerResponse {
    /// The response for a stored server: every field carried over.
    pub fn from(val: ServerModel) -> (res: ServerResponse)
        ensures
            res.id == val.id,
            res.name == val.name,
            res.owner_id == val.owner_id,
            res.flags == val.flags,
            res.updated_at == val.updated_at,
            res.created_at == val.created_at,
    {
        ServerResponse {
            id: val.id,
            name: val.name,
            owner_id: val.owner_id,
            flags: val.flags,
            updated_at: val.updated_at,
            created_at: val.created_at,
        }
    }
}

/// A server invite as stored.
pub struct ServerInviteModel {
    pub id: u128,
    pub server_id: u128,
    pub code: String,
    pub updated_at: i64,
    pub created_at: i64,
}

/// A server invite as sent to clients.
pub struct ServerInviteResponse {
    pub id: u128,
    pub server_id: u128,
    pub code: String,
    pub updated_at: i64,
    pub created_at: i64,
}

impl ServerInviteResponse {
    /// The response for a stored invite: every field carried over.
    pub fn from(val: ServerInviteModel) -> (res: ServerInviteResponse)
        ensures
            res.id == val.id,
            res.server_id == val.server_id,
            res.code == val.code,
            res.updated_at == val.updated_at,
            res.created_at == val.created_at,
    {
        ServerInviteResponse {
            id: val.id,
            server_id: val.server_id,
            code: val.code,
            updated_at: val.updated_at,
            created_at: val.created_at,
        }
    }
}

/// The text of a server name (acceptable and already trimmed) parses back
/// to a name with the same text: trimming is not applied twice.
pub proof fn lemma_server_name_reparses(s: Seq<char>, res: Result<ServerName, String>)
    requires
        is_valid_server_name(s),
        str_trimmed(s) == s,
        server_name_parsed(s, res),
    ensures
        res matches Ok(name) && name@ == s,
{
}

/// A name of acceptable length that neither starts nor ends with
/// whitespace parses to itself.
pub proof fn lemma_unpadded_name_parses(s: Seq<char>, res: Result<ServerName, String>)
    requires
        is_valid_server_name(s),
        unpadded(s),
        server_name_parsed(s, res),
    ensures
        res matches Ok(name) && name@ == s,
{
    lemma_unpadded_is_trimmed(s);
}

/// A name of acceptable length that starts and ends with an ASCII letter
/// or digit parses to itself: no character of it is trimmed.
pub proof fn lemma_alphanumeric_name_parses(s: Seq<char>, res: Result<ServerName, String>)
    requires
        is_valid_server_name(s),
        is_ascii_alphanumeric_char(s[0]),
        is_ascii_alphanumeric_char(s.last()),
        server_name_parsed(s, res),
    ensures
        res matches Ok(name) && name@ == s,
{
    lemma_alphanumeric_ends_are_kept(s);
}

} // verus!
