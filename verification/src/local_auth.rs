//! The failures of a login with a local credential and a signed token, and
//! how each is answered.

use vstd::prelude::*;

use crate::error::{STATUS_BAD_REQUEST, STATUS_INTERNAL_SERVER_ERROR, STATUS_UNAUTHORIZED};

verus! {

/// Why a local login or a request with a token failed.
#[derive(Clone, Copy, Debug, PartialEq, Eq, Structural)]
pub enum LocalAuthError {
    WrongCredentials,
    MissingCredentials,
    TokenCreation,
    InvalidToken,
}

/// The HTTP status that answers each failure.
pub open spec fn local_status_of(error: LocalAuthError) -> u16 {
    match error {
        LocalAuthError::WrongCredentials => STATUS_UNAUTHORIZED,
        LocalAuthError::MissingCredentials => STATUS_BAD_REQUEST,
        LocalAuthError::TokenCreation => STATUS_INTERNAL_SERVER_ERROR,
        LocalAuthError::InvalidToken => STATUS_BAD_REQUEST,
    }
}

/// The message that answers each failure.
pub open spec fn local_message_of(error: LocalAuthError) -> Seq<char> {
    match error {
        LocalAuthError::WrongCredentials => "Wrong credentials"@,
        LocalAuthError::MissingCredentials => "Missing credentials"@,
        LocalAuthError::TokenCreation => "Token creation error"@,
        LocalAuthError::InvalidToken => "Invalid token"@,
    }
}

impl LocalAuthError {
    /// The HTTP status that answers this failure.
    pub fn status_code(&self) -> (status: u16)
        ensures
            status == local_status_of(*self),
    {
        match self {
            LocalAuthError::WrongCredentials => STATUS_UNAUTHORIZED,
            LocalAuthError::MissingCredentials => STATUS_BAD_REQUEST,
            LocalAuthError::TokenCreation => STATUS_INTERNAL_SERVER_ERROR,
            LocalAuthError::InvalidToken => STATUS_BAD_REQUEST,
        }
    }

    /// The message that answers this failure.
    pub fn message(&self) -> (message: &'static str)
        ensures
            message@ == local_message_of(*self),
    {
        match self {
            LocalAuthError::WrongCredentials => "Wrong credentials",
            LocalAuthError::MissingCredentials => "Missing credentials",
            LocalAuthError::TokenCreation => "Token creation error",
            LocalAuthError::InvalidToken => "Invalid token",
        }
    }
}

} // verus!
