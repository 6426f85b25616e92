//! `POST /users`: change the current user's name, email or password.

use vstd::prelude::*;
use crate::domain::users::{UpdateUser, UserName, UserEmail, UserPassword, is_valid_user_name,
    invalid_user_name_message, invalid_user_email_message, user_password_parsed,
    verify_password_hash, unparsable_hash_message};
use crate::validation::email_is_valid;
use crate::password::{password_hash_parses, argon2_accepts};

verus! {

/// The request body: each field to change, and the current password.
pub struct BodyData {
    pub name: Option<String>,
    pub email: Option<String>,
    pub password: Option<String>,
    pub current_password: String,
}

/// What validating an optional field gives: nothing to check without a
/// value, the field's own parse outcome with one.
pub open spec fn optional_name_ok(value: Option<String>) -> bool {
    match value {
        Some(n) => is_valid_user_name(n@),
        None => true,
    }
}

/// Whether an optional email passes the email validator (or is absent).
pub open spec fn optional_email_ok(value: Option<String>) -> bool {
    match value {
        Some(e) => email_is_valid(e@),
        None => true,
    }
}

/// What validating a user update gives: the first invalid field's message,
/// checked in the order name, email, password; otherwise the update, with
/// each given field validated (a new password hashed).
pub open spec fn update_validated(value: BodyData, res: Result<UpdateUser, String>) -> bool {
    if !optional_name_ok(value.name) {
        res matches Err(m) && m@ == invalid_user_name_message(value.name->0@)
    } else if !optional_email_ok(value.email) {
        res matches Err(m) && m@ == invalid_user_email_message(value.email->0@)
    } else {
        match res {
            Ok(u) => {
                &&& u.current_password == value.current_password
                &&& match value.name {
                    Some(n) => u.name matches Some(x) && x@ == n@,
                    None => u.name is None,
                }
                &&& match value.email {
                    Some(e) => u.email matches Some(x) && x@ == e@,
                    None => u.email is None,
                }
                &&& match value.password {
                    Some(p) => u.password matches Some(x) && user_password_parsed(p@, Ok(x)),
                    None => u.password is None,
                }
            },
            Err(m) => value.password matches Some(p) && user_password_parsed(p@, Err(m)),
        }
    }
}

impl UpdateUser {
    /// Validate a user update body.
    pub fn try_from(value: BodyData) -> (res: Result<UpdateUser, String>)
        ensures
            update_validated(value, res),
    {
        let name = match value.name {
            Some(v) => match UserName::parse(v) {
                Ok(n) => Some(n),
                Err(e) => return Err(e),
            },
            None => None,
        };
        let email = match value.email {
            Some(v) => match UserEmail::parse(v) {
                Ok(e) => Some(e),
                Err(e) => return Err(e),
            },
            None => None,
        };
        let password = match value.password {
            Some(v) => match UserPassword::parse(v) {
                Ok(p) => Some(p),
                Err(e) => return Err(e),
            },
            None => None,
        };
        Ok(UpdateUser { name, email, password, current_password: value.current_password })
    }
}

/// Why the current user cannot be changed.
pub enum UserUpdateError {
    /// The current password is wrong.
    WrongPasswordError,
    /// Invalid data was supplied in the request; the text says why.
    ValidationError(String),
    /// An unexpected failure; the text describes it.
    UnexpectedError(String),
}

impl UserUpdateError {
    /// The HTTP status of the error.
    pub fn status_code(&self) -> (code: u16)
        ensures
            code == (match self {
                UserUpdateError::WrongPasswordError => 403u16,
                UserUpdateError::ValidationError(_) => 400u16,
                UserUpdateError::UnexpectedError(_) => 500u16,
            }),
    {
        match self {
            UserUpdateError::WrongPasswordError => 403,
            UserUpdateError::ValidationError(_) => 400,
            UserUpdateError::UnexpectedError(_) => 500,
        }
    }

    /// The error's message.
    pub fn message(&self) -> (m: String)
        ensures
            m@ == (match self {
                UserUpdateError::WrongPasswordError => "Wrong password"@,
                UserUpdateError::ValidationError(e) => e@,
                UserUpdateError::UnexpectedError(e) => e@,
            }),
    {
        match self {
            UserUpdateError::WrongPasswordError => "Wrong password".to_string(),
            UserUpdateError::ValidationError(e) => e.clone(),
            UserUpdateError::UnexpectedError(e) => e.clone(),
        }
    }
}

impl UserUpdateError {
    /// Check the current password against the stored hash: a wrong password
    /// refuses the change, a stored hash that does not parse is unexpected.
    pub fn check_current_password(stored_hash: String, current_password: String) -> (res: Result<(), UserUpdateError>)
        ensures
            !password_hash_parses(stored_hash@) ==> (res matches Err(UserUpdateError::UnexpectedError(m))
                && m@ == unparsable_hash_message()),
            password_hash_parses(stored_hash@) && argon2_accepts(stored_hash@, current_password@) ==> res is Ok,
            password_hash_parses(stored_hash@) && !argon2_accepts(stored_hash@, current_password@)
                ==> res matches Err(UserUpdateError::WrongPasswordError),
    {
        match verify_password_hash(stored_hash, current_password) {
            Ok(true) => Ok(()),
            Ok(false) => Err(UserUpdateError::WrongPasswordError),
            Err(e) => Err(UserUpdateError::UnexpectedError(e)),
        }
    }
}

/// One column of the user's row that an update writes.
pub enum UserWrite {
    Name(UserName),
    Email(UserEmail),
    Password(UserPassword),
}

/// The writes of an update, in the order they are made: the name, the
/// email, then the password, each only when the update changes it.
pub open spec fn user_writes(update: UpdateUser) -> Seq<UserWrite> {
    (match update.name {
        Some(n) => seq![UserWrite::Name(n)],
        None => Seq::<UserWrite>::empty(),
    }) + (match update.email {
        Some(e) => seq![UserWrite::Email(e)],
        None => Seq::<UserWrite>::empty(),
    }) + (match update.password {
        Some(p) => seq![UserWrite::Password(p)],
        None => Seq::<UserWrite>::empty(),
    })
}

impl UpdateUser {
    /// The writes this update makes, in order.
    pub fn writes(self) -> (w: Vec<UserWrite>)
        ensures
            w@ == user_writes(self),
            forall|n: UserName| w@.contains(UserWrite::Name(n)) <==> self.name == Some(n),
            forall|e: UserEmail| w@.contains(UserWrite::Email(e)) <==> self.email == Some(e),
            forall|p: UserPassword| w@.contains(UserWrite::Password(p)) <==> self.password == Some(p),
            w@.len() == (if self.name is Some { 1int } else { 0 }) + (if self.email is Some { 1int } else { 0 }) + (
            if self.password is Some { 1int } else { 0 }),
    {
        proof {
            lemma_writes_are_the_given_fields(self);
        }
        let ghost u = self;
        let mut w: Vec<UserWrite> = Vec::new();
        match self.name {
            Some(n) => w.push(UserWrite::Name(n)),
            None => {},
        }
        match self.email {
            Some(e) => w.push(UserWrite::Email(e)),
            None => {},
        }
        match self.password {
            Some(p) => w.push(UserWrite::Password(p)),
            None => {},
        }
        assert(w@ =~= user_writes(u));
        w
    }
}

/// An update writes exactly the fields it was given, each once: the name
/// is written exactly when the update has a new name, and that name; the
/// same for the email and the password; and nothing else is written.
pub proof fn lemma_writes_are_the_given_fields(update: UpdateUser)
    ensures
        forall|n: UserName| user_writes(update).contains(UserWrite::Name(n)) <==> update.name == Some(n),
        forall|e: UserEmail| user_writes(update).contains(UserWrite::Email(e)) <==> update.email == Some(e),
        forall|p: UserPassword| user_writes(update).contains(UserWrite::Password(p)) <==> update.password == Some(p),
        user_writes(update).len() == (if update.name is Some { 1int } else { 0 }) + (if update.email is Some {
            1int
        } else {
            0
        }) + (if update.password is Some { 1int } else { 0 }),
{
    let a = match update.name {
        Some(n) => seq![UserWrite::Name(n)],
        None => Seq::<UserWrite>::empty(),
    };
    let b = match update.email {
        Some(e) => seq![UserWrite::Email(e)],
        None => Seq::<UserWrite>::empty(),
    };
    let c = match update.password {
        Some(p) => seq![UserWrite::Password(p)],
        None => Seq::<UserWrite>::empty(),
    };
    let w = user_writes(update);
    assert(w == a + b + c);
    assert forall|n: UserName| w.contains(UserWrite::Name(n)) <==> update.name == Some(n) by {
        if update.name == Some(n) {
            assert(w[0] == UserWrite::Name(n));
        }
        if w.contains(UserWrite::Name(n)) {
            let i = choose|i: int| 0 <= i < w.len() && w[i] == UserWrite::Name(n);
            if i >= a.len() + b.len() {
                assert(w[i] == c[i - a.len() - b.len()]);
            } else if i >= a.len() {
                assert(w[i] == b[i - a.len()]);
            } else {
                assert(w[i] == a[i]);
            }
        }
    }
    assert forall|e: UserEmail| w.contains(UserWrite::Email(e)) <==> update.email == Some(e) by {
        if update.email == Some(e) {
            assert(w[a.len() as int] == UserWrite::Email(e));
        }
        if w.contains(UserWrite::Email(e)) {
            let i = choose|i: int| 0 <= i < w.len() && w[i] == UserWrite::Email(e);
            if i >= a.len() + b.len() {
                assert(w[i] == c[i - a.len() - b.len()]);
            } else if i >= a.len() {
                assert(w[i] == b[i - a.len()]);
            } else {
                assert(w[i] == a[i]);
            }
        }
    }
    assert forall|p: UserPassword| w.contains(UserWrite::Password(p)) <==> update.password == Some(p) by {
        if update.password == Some(p) {
            assert(w[(a.len() + b.len()) as int] == UserWrite::Password(p));
        }
        if w.contains(UserWrite::Password(p)) {
            let i = choose|i: int| 0 <= i < w.len() && w[i] == UserWrite::Password(p);
            if i >= a.len() + b.len() {
                assert(w[i] == c[i - a.len() - b.len()]);
            } else if i >= a.len() {
                assert(w[i] == b[i - a.len()]);
            } else {
                assert(w[i] == a[i]);
            }
        }
    }
}

} // verus!
