//! The failures of the account service, and the message for each.

use vstd::prelude::*;
use crate::messages::{Messages, MessagesView};

verus! {

/// Why the account service could not do what was asked.
#[derive(Debug)]
pub enum UserServiceError {
    NotFound,
    InvalidCredentials,
    DuplicateEmail,
    DbError(String),
    JwtGenerationError(String),
    PasswordHashingError(String),
}

impl UserServiceError {
    /// The message for the failure: the text of the catalogs at the path of
    /// the failure, or its English text. The detail that a failure carries
    /// is not part of the message.
    pub open spec fn message(self, messages: MessagesView) -> Seq<char> {
        match self {
            UserServiceError::NotFound => messages.user.resolve(
                "fetch.not_found"@,
                "User not found"@,
            ),
            UserServiceError::InvalidCredentials => messages.auth.resolve(
                "login.invalid_credentials"@,
                "Invalid credentials"@,
            ),
            UserServiceError::DuplicateEmail => messages.auth.resolve(
                "register.duplicate"@,
                "Duplicate email"@,
            ),
            UserServiceError::DbError(_) => messages.auth.resolve(
                "register.db_error"@,
                "Database error occurred during user registration"@,
            ),
            UserServiceError::JwtGenerationError(_) => messages.auth.resolve(
                "auth.jwt_generation_failed"@,
                "JWT generation failed"@,
            ),
            UserServiceError::PasswordHashingError(_) => messages.auth.resolve(
                "auth.password_hashing_failed"@,
                "Password hashing failed"@,
            ),
        }
    }

    /// The message for the failure, in the language of `messages`.
    pub fn to_message(&self, messages: &Messages) -> (message: String)
        ensures
            message@ == self.message(messages@),
    {
        match self {
            UserServiceError::NotFound => messages.get_user_message(
                "fetch.not_found",
                "User not found",
            ),
            UserServiceError::InvalidCredentials => messages.get_auth_message(
                "login.invalid_credentials",
                "Invalid credentials",
            ),
            UserServiceError::DuplicateEmail => messages.get_auth_message(
                "register.duplicate",
                "Duplicate email",
            ),
            UserServiceError::DbError(_) => messages.get_auth_message(
                "register.db_error",
                "Database error occurred during user registration",
            ),
            UserServiceError::JwtGenerationError(_) => messages.get_auth_message(
                "auth.jwt_generation_failed",
                "JWT generation failed",
            ),
            UserServiceError::PasswordHashingError(_) => messages.get_auth_message(
                "auth.password_hashing_failed",
                "Password hashing failed",
            ),
        }
    }
}

} // verus!
