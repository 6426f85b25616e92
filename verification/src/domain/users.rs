//! User names, emails and passwords, the validated data to create or update
//! a user, password checking, and the user records.

use vstd::prelude::*;
use crate::validation::{length_in_range, email_accepted, email_is_valid};
use crate::password::{argon2_verify, argon2_hash, fresh_salt, password_hash_parses, argon2_accepts, is_default_argon2_phc, starts_as_phc, argon2id_phc_prefix,
    argon2id_default_hash, is_b64_salt16};

verus! {

/// Smallest number of characters of a user name.
pub const USER_NAME_MIN: u64 = 3;

/// Largest number of characters of a user name.
pub const USER_NAME_MAX: u64 = 32;

/// Smallest number of characters of a password.
pub const USER_PASSWORD_MIN: u64 = 8;

/// Largest number of characters of a password.
pub const USER_PASSWORD_MAX: u64 = 64;

/// Whether `s` is an acceptable user name.
pub open spec fn is_valid_user_name(s: Seq<char>) -> bool {
    USER_NAME_MIN <= s.len() <= USER_NAME_MAX
}

/// Whether `s` is an acceptable password (before hashing).
pub open spec fn is_valid_user_password(s: Seq<char>) -> bool {
    USER_PASSWORD_MIN <= s.len() <= USER_PASSWORD_MAX
}

/// The message with which an invalid user name is rejected.
pub open spec fn invalid_user_name_message(s: Seq<char>) -> Seq<char> {
    s + " is not a valid user name!"@
}

/// The message with which an invalid email is rejected.
pub open spec fn invalid_user_email_message(s: Seq<char>) -> Seq<char> {
    s + " is not a valid user email!"@
}

/// The message with which a password of the wrong length is rejected.
pub open spec fn invalid_user_password_message() -> Seq<char> {
    "Invalid user password!"@
}

/// The message with which a password is rejected when hashing fails.
pub open spec fn hash_failed_message() -> Seq<char> {
    "Hash could not be calculated!"@
}

/// The message with which a stored hash that does not parse is reported.
pub open spec fn unparsable_hash_message() -> Seq<char> {
    "Failed to parse password hash."@
}

/// A user name of 3 to 32 characters.
pub struct UserName {
    value: String,
}

/// A user email that the email validator accepts.
pub struct UserEmail {
    value: String,
}

/// The Argon2 PHC hash string of a password of 8 to 64 characters.
pub struct UserPassword {
    hash: String,
}

impl View for UserName {
    type V = Seq<char>;

    closed spec fn view(&self) -> Seq<char> {
        self.value@
    }
}

impl View for UserEmail {
    type V = Seq<char>;

    closed spec fn view(&self) -> Seq<char> {
        self.value@
    }
}

impl View for UserPassword {
    type V = Seq<char>;

    /// The stored hash string.
    closed spec fn view(&self) -> Seq<char> {
        self.hash@
    }
}

/// What parsing `value` as a user name gives.
pub open spec fn user_name_parsed(value: Seq<char>, res: Result<UserName, String>) -> bool {
    if is_valid_user_name(value) {
        res matches Ok(name) && name@ == value
    } else {
        res matches Err(msg) && msg@ == invalid_user_name_message(value)
    }
}

/// What parsing `value` as a user email gives.
pub open spec fn user_email_parsed(value: Seq<char>, res: Result<UserEmail, String>) -> bool {
    if email_is_valid(value) {
        res matches Ok(email) && email@ == value
    } else {
        res matches Err(msg) && msg@ == invalid_user_email_message(value)
    }
}

/// `hash` is a hash of `password`: an Argon2id PHC string with the default
/// parameters, which parses, and against which the password verifies.
pub open spec fn is_hash_of(hash: Seq<char>, password: Seq<char>) -> bool {
    &&& is_default_argon2_phc(hash)
    &&& password_hash_parses(hash)
    &&& argon2_accepts(hash, password)
}

/// What parsing `value` as a password gives: a password of the wrong
/// length is rejected; otherwise the result is its Argon2 hash with some
/// 16-byte salt.
pub open spec fn user_password_parsed(value: Seq<char>, res: Result<UserPassword, String>) -> bool {
    if is_valid_user_password(value) {
        res matches Ok(p) && is_hash_of(p@, value) && exists|salt: Seq<char>|
            is_b64_salt16(salt) && #[trigger] argon2id_default_hash(value, salt) == p@
    } else {
        res matches Err(msg) && msg@ == invalid_user_password_message()
    }
}

impl UserName {
    /// Parse a user name, accepting exactly the values of 3 to 32 characters.
    pub fn parse(value: String) -> (res: Result<UserName, String>)
        ensures
            user_name_parsed(value@, res),
    {
        if length_in_range(value.as_str(), USER_NAME_MIN, USER_NAME_MAX) {
            Ok(UserName { value })
        } else {
            Err(value.concat(" is not a valid user name!"))
        }
    }

    /// The validated name.
    pub fn as_str(&self) -> (s: &str)
        ensures
            s@ == self@,
            is_valid_user_name(s@),
    {
        proof {
            use_type_invariant(self);
        }
        self.value.as_str()
    }

    /// The validated name, as its `Display` shows it.
    pub fn to_string(&self) -> (s: String)
        ensures
            s@ == self@,
    {
        self.value.clone()
    }


    #[verifier::type_invariant]
    spec fn inv(&self) -> bool {
        is_valid_user_name(self.value@)
    }
}

impl UserEmail {
    /// Parse a user email, accepting exactly what the email validator accepts.
    pub fn parse(value: String) -> (res: Result<UserEmail, String>)
        ensures
            user_email_parsed(value@, res),
            res is Ok ==> exists|i: int| 0 < i < value@.len() - 1 && value@[i] == '@',
    {
        let accepted = email_accepted(value.as_str());
        Self::from_validation(value, accepted)
    }

    /// The email from the validator's verdict on it.
    pub fn from_validation(value: String, accepted: bool) -> (res: Result<UserEmail, String>)
        requires
            accepted == email_is_valid(value@),
        ensures
            user_email_parsed(value@, res),
    {
        if accepted {
            Ok(UserEmail { value })
        } else {
            Err(value.concat(" is not a valid user email!"))
        }
    }

    /// The validated email.
    pub fn as_str(&self) -> (s: &str)
        ensures
            s@ == self@,
            email_is_valid(s@),
    {
        proof {
            use_type_invariant(self);
        }
        self.value.as_str()
    }

    /// The validated email, as its `Display` shows it.
    pub fn to_string(&self) -> (s: String)
        ensures
            s@ == self@,
    {
        self.value.clone()
    }


    #[verifier::type_invariant]
    spec fn inv(&self) -> bool {
        email_is_valid(self.value@)
    }
}

impl UserPassword {
    /// Parse a password: a password of 8 to 64 characters is hashed with a
    /// fresh random salt, and the hash is what is kept; hashing such a
    /// password always succeeds.
    pub fn parse(value: String) -> (res: Result<UserPassword, String>)
        ensures
            user_password_parsed(value@, res),
            res matches Ok(p) ==> p@ != value@,
    {
        if length_in_range(value.as_str(), USER_PASSWORD_MIN, USER_PASSWORD_MAX) {
            let salt = fresh_salt();
            let hashed = argon2_hash(value.as_str(), salt.as_str());
            proof {
                reveal_strlit("$argon2id$v=19$m=19456,t=2,p=1$");
                if hashed is Some {
                    let h = hashed->0;
                    assert(h@.len() - 44 == argon2id_phc_prefix().len() + salt@.len());
                    assert(h@.subrange(0, argon2id_phc_prefix().len() as int) == argon2id_phc_prefix());
                }
            }
            Self::from_hash_result(hashed)
        } else {
            Err("Invalid user password!".to_string())
        }
    }

    /// The password from the outcome of hashing it: the hash when hashing
    /// succeeded, the hashing error otherwise.
    pub fn from_hash_result(hashed: Option<String>) -> (res: Result<UserPassword, String>)
        requires
            hashed matches Some(h) ==> password_hash_parses(h@) && is_default_argon2_phc(h@),
        ensures
            match hashed {
                Some(h) => res matches Ok(p) && p@ == h@,
                None => res matches Err(msg) && msg@ == hash_failed_message(),
            },
    {
        match hashed {
            Some(hash) => Ok(UserPassword { hash }),
            None => Err("Hash could not be calculated!".to_string()),
        }
    }

    /// The stored hash string.
    pub fn as_str(&self) -> (s: &str)
        ensures
            s@ == self@,
            password_hash_parses(s@),
            is_default_argon2_phc(s@),
    {
        proof {
            use_type_invariant(self);
        }
        self.hash.as_str()
    }


    #[verifier::type_invariant]
    spec fn inv(&self) -> bool {
        password_hash_parses(self.hash@) && is_default_argon2_phc(self.hash@)
    }
}

/// What checking `given` against the stored hash `expected` gives: an error
/// when the stored hash does not parse, otherwise whether the password matches.
pub open spec fn password_checked(expected: Seq<char>, given: Seq<char>, res: Result<bool, String>) -> bool {
    if password_hash_parses(expected) {
        res == Ok::<bool, String>(argon2_accepts(expected, given))
    } else {
        res matches Err(msg) && msg@ == unparsable_hash_message()
    }
}

/// Check whether `given_password` matches `expected_password_hash`.
pub fn verify_password_hash(expected_password_hash: String, given_password: String) -> (res: Result<bool, String>)
    ensures
        password_checked(expected_password_hash@, given_password@, res),
        !starts_as_phc(expected_password_hash@) ==> (res matches Err(msg) && msg@ == unparsable_hash_message()),
        forall|p: Seq<char>, s: Seq<char>|
            #![trigger argon2id_default_hash(p, s)]
            argon2id_default_hash(p, s) == expected_password_hash@ && is_b64_salt16(s) && p.len() <= 0x3fff_ffff
                && given_password@.len() <= 0x3fff_ffff ==> res == Ok::<bool, String>(
                argon2id_default_hash(given_password@, s) == expected_password_hash@,
            ),
{
    password_check_outcome(argon2_verify(expected_password_hash.as_str(), given_password.as_str()))
}

/// The result of a password check from the verifier's outcome: `None` when
/// the stored hash did not parse, otherwise whether the password matched.
pub fn password_check_outcome(outcome: Option<bool>) -> (res: Result<bool, String>)
    ensures
        match outcome {
            Some(ok) => res == Ok::<bool, String>(ok),
            None => res matches Err(msg) && msg@ == unparsable_hash_message(),
        },
{
    match outcome {
        Some(ok) => Ok(ok),
        None => Err("Failed to parse password hash.".to_string()),
    }
}

/// Validated data to create a new user.
pub struct NewUser {
    pub name: UserName,
    pub email: UserEmail,
    pub password: UserPassword,
}

/// Validated data to update the current user: each field to change, and the
/// current password that authorizes the change.
pub struct UpdateUser {
    pub name: Option<UserName>,
    pub email: Option<UserEmail>,
    pub password: Option<UserPassword>,
    pub current_password: String,
}

/// A user as stored.
pub struct UserModel {
    pub id: u128,
    pub username: String,
    pub password: String,
    pub email: String,
    pub updated_at: i64,
    pub created_at: i64,
}

/// A user as sent to clients: without the password hash and the email.
pub struct UserResponse {
    pub id: u128,
    pub username: String,
    pub updated_at: i64,
    pub created_at: i64,
}

impl UserResponse {
    /// The response for a stored user.
    pub fn from(val: UserModel) -> (res: UserResponse)
        ensures
            res.id == val.id,
            res.username == val.username,
            res.updated_at == val.updated_at,
            res.created_at == val.created_at,
    {
        UserResponse {
            id: val.id,
            username: val.username,
            updated_at: val.updated_at,
            created_at: val.created_at,
        }
    }
}

/// A password that was accepted and hashed verifies against its own hash.
pub proof fn lemma_parsed_password_verifies(value: Seq<char>, res: Result<UserPassword, String>, hash: Seq<char>)
    requires
        user_password_parsed(value, res),
        res matches Ok(p) && p@ == hash,
    ensures
        password_checked(hash, value, Ok(true)),
{
}

/// An acceptable user name parses to a name with exactly that text.
pub proof fn lemma_user_name_reparses(s: Seq<char>, res: Result<UserName, String>)
    requires
        is_valid_user_name(s),
        user_name_parsed(s, res),
    ensures
        res matches Ok(name) && name@ == s,
{
}

/// An email the validator accepts parses to an email with exactly that text.
pub proof fn lemma_user_email_reparses(s: Seq<char>, res: Result<UserEmail, String>)
    requires
        email_is_valid(s),
        user_email_parsed(s, res),
    ensures
        res matches Ok(email) && email@ == s,
{
}

} // verus!
