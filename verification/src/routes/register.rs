//! `POST /register`: create a user from a name, an email and a password.

use vstd::prelude::*;
use crate::domain::users::{NewUser, UserName, UserEmail, UserPassword, is_valid_user_name,
    invalid_user_name_message, invalid_user_email_message, user_password_parsed};
use crate::validation::email_is_valid;

verus! {

/// The request body.
pub struct BodyData {
    pub name: String,
    pub email: String,
    pub password: String,
}

/// What validating a registration gives: the first invalid field's message,
/// checked in the order name, email, password; otherwise the new user.
pub open spec fn registration_validated(value: BodyData, res: Result<NewUser, String>) -> bool {
    if !is_valid_user_name(value.name@) {
        res matches Err(m) && m@ == invalid_user_name_message(value.name@)
    } else if !email_is_valid(value.email@) {
        res matches Err(m) && m@ == invalid_user_email_message(value.email@)
    } else {
        match res {
            Ok(user) => user.name@ == value.name@ && user.email@ == value.email@
                && user_password_parsed(value.password@, Ok(user.password)),
            Err(m) => user_password_parsed(value.password@, Err(m)),
        }
    }
}

impl NewUser {
    /// Validate a registration body.
    pub fn try_from(value: BodyData) -> (res: Result<NewUser, String>)
        ensures
            registration_validated(value, res),
    {
        let ghost v = value;
        let name = match UserName::parse(value.name) {
            Ok(n) => n,
            Err(e) => return Err(e),
        };
        let email = match UserEmail::parse(value.email) {
            Ok(e) => e,
            Err(e) => return Err(e),
        };
        let password = match UserPassword::parse(value.password) {
            Ok(p) => p,
            Err(e) => return Err(e),
        };
        Ok(NewUser { name, email, password })
    }
}

/// Why a registration is refused.
pub enum RegisterError {
    /// The body is invalid; the text says why.
    ValidationError(String),
    UnexpectedError(String),
}

impl RegisterError {
    /// 400 for an invalid body, 500 otherwise.
    pub fn status_code(&self) -> (code: u16)
        ensures
            code == (match self {
                RegisterError::ValidationError(_) => 400u16,
                RegisterError::UnexpectedError(_) => 500u16,
            }),
    {
        match self {
            RegisterError::ValidationError(_) => 400,
            RegisterError::UnexpectedError(_) => 500,
        }
    }

    /// The error's message.
    pub fn message(&self) -> (m: String)
        ensures
            m@ == (match self {
                RegisterError::ValidationError(e) => e@,
                RegisterError::UnexpectedError(e) => e@,
            }),
    {
        match self {
            RegisterError::ValidationError(e) => e.clone(),
            RegisterError::UnexpectedError(e) => e.clone(),
        }
    }
}

} // verus!
