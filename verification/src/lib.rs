//! An authentication session service core: validated credential types,
//! pluggable stores for user records, revoked tokens and pending
//! second-factor challenges, a signed-token service, and the login,
//! second-factor, logout and token-verification flows built on them.
use vstd::prelude::*;

pub mod email;
pub mod password;
pub mod two_fa;
pub mod user;
pub mod data_stores;
pub mod hashmap_user_store;
pub mod hashset_banned_token_store;
pub mod hashmap_two_fa_code_store;
pub mod email_client;
pub mod auth;
pub mod signup;
pub mod login;
pub mod verify_2fa;
pub mod logout;
pub mod verify_token;
pub mod laws;

verus! {

/// Why a raw string was rejected by a value type's validating constructor.
#[derive(Clone, Copy, Debug, PartialEq, Eq, Structural)]
pub enum ParseError {
    InvalidFormat,
    InvalidLength,
}

/// The error classes a caller of the authentication flows can observe.
#[derive(Clone, Copy, Debug, PartialEq, Eq, Structural)]
pub enum AuthAPIError {
    UserAlreadyExists,
    InvalidCredentials,
    IncorrectCredentials,
    MissingToken,
    InvalidToken,
    UnexpectedError,
}

/// Body of an error reply: the outward message for an `AuthAPIError`.
pub struct ErrorResponse {
    pub error: String,
}

impl AuthAPIError {
    /// The outward message for this error class.
    pub fn message(&self) -> (r: &'static str)
        ensures
            r@ == self.spec_message(),
    {
        match self {
            AuthAPIError::UserAlreadyExists => "User already exists",
            AuthAPIError::InvalidCredentials => "Invalid credentials",
            AuthAPIError::IncorrectCredentials => "Incorrect credentials",
            AuthAPIError::MissingToken => "Missing token",
            AuthAPIError::InvalidToken => "Invalid token",
            AuthAPIError::UnexpectedError => "Unexpected error",
        }
    }

    /// What `message` returns for each error class.
    pub open spec fn spec_message(&self) -> Seq<char> {
        match self {
            AuthAPIError::UserAlreadyExists => "User already exists"@,
            AuthAPIError::InvalidCredentials => "Invalid credentials"@,
            AuthAPIError::IncorrectCredentials => "Incorrect credentials"@,
            AuthAPIError::MissingToken => "Missing token"@,
            AuthAPIError::InvalidToken => "Invalid token"@,
            AuthAPIError::UnexpectedError => "Unexpected error"@,
        }
    }

    /// The error reply body for this error class.
    pub fn to_response(&self) -> (r: ErrorResponse)
        ensures
            r.error@ == self.spec_message(),
    {
        ErrorResponse { error: self.message().to_owned() }
    }
}

} // verus!
