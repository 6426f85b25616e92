//! `POST /login`: check an email and password and hand out a token.

use vstd::prelude::*;
use crate::domain::users::{NewUser, UserModel, verify_password_hash, unparsable_hash_message};
use crate::routes::register::registration_validated;
use crate::password::{password_hash_parses, argon2_accepts};

verus! {

/// The request body.
pub struct BodyData {
    pub email: String,
    pub password: String,
}

/// The credentials to check.
pub struct LoginUser {
    pub email: String,
    pub password: String,
}

impl LoginUser {
    /// The credentials of a request body, unchanged.
    pub fn from(value: BodyData) -> (user: LoginUser)
        ensures
            user.email == value.email,
            user.password == value.password,
    {
        LoginUser { email: value.email, password: value.password }
    }
}

/// Why a login is refused.
pub enum LoginError {
    /// No user has the email, or the password is wrong.
    LoginFailed,
    /// Something else went wrong; the text describes it.
    UnexpectedError(String),
}

impl LoginError {
    /// 401 for failed credentials, 500 otherwise.
    pub fn status_code(&self) -> (code: u16)
        ensures
            code == (match self {
                LoginError::LoginFailed => 401u16,
                LoginError::UnexpectedError(_) => 500u16,
            }),
    {
        match self {
            LoginError::LoginFailed => 401,
            LoginError::UnexpectedError(_) => 500,
        }
    }

    /// The error's message.
    pub fn message(&self) -> (m: String)
        ensures
            m@ == (match self {
                LoginError::LoginFailed => "Login failed"@,
                LoginError::UnexpectedError(e) => e@,
            }),
    {
        match self {
            LoginError::LoginFailed => "Login failed".to_string(),
            LoginError::UnexpectedError(e) => e.clone(),
        }
    }
}

/// What checking `login_user` against the stored user with its email gives.
pub open spec fn credentials_checked(
    login_user: LoginUser,
    stored_user: Option<UserModel>,
    res: Result<(u128, String), LoginError>,
) -> bool {
    match stored_user {
        None => res matches Err(LoginError::LoginFailed),
        Some(user) => if !password_hash_parses(user.password@) {
            res matches Err(LoginError::UnexpectedError(m)) && m@ == unparsable_hash_message()
        } else if argon2_accepts(user.password@, login_user.password@) {
            res matches Ok((id, email)) && id == user.id && email == user.email
        } else {
            res matches Err(LoginError::LoginFailed)
        },
    }
}

/// Check credentials against the user stored with that email, if any: the
/// user's id and email when the password matches the stored hash.
pub fn validate_credentials(login_user: LoginUser, stored_user: Option<UserModel>) -> (res: Result<(u128, String), LoginError>)
    ensures
        credentials_checked(login_user, stored_user, res),
{
    let user = match stored_user {
        Some(value) => value,
        None => return Err(LoginError::LoginFailed),
    };
    let user_password = user.password.clone();
    let is_password_correct = match verify_password_hash(user_password, login_user.password) {
        Ok(b) => b,
        Err(e) => return Err(LoginError::UnexpectedError(e)),
    };
    if !is_password_correct {
        return Err(LoginError::LoginFailed);
    }
    Ok((user.id, user.email))
}

/// A user who registered with a password logs in with that same password:
/// the stored hash is the one registration produced, and checking the
/// password against it succeeds with the stored user's id and email.
pub proof fn lemma_registered_user_logs_in(
    body: crate::routes::register::BodyData,
    registered: Result<NewUser, String>,
    stored: UserModel,
    login_user: LoginUser,
    outcome: Result<(u128, String), LoginError>,
)
    requires
        registration_validated(body, registered),
        registered matches Ok(u) && stored.password@ == u.password@,
        login_user.password@ == body.password@,
        credentials_checked(login_user, Some(stored), outcome),
    ensures
        outcome matches Ok((id, email)) && id == stored.id && email == stored.email,
{
}

} // verus!
