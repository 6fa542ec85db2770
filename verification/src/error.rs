//! The failures of the flow and of the session store.

use vstd::prelude::*;

use crate::text::optional_text;

verus! {

/// Why the session store refused.
#[derive(Clone, Copy, Debug, PartialEq, Eq, Structural)]
pub enum StoreError {
    /// A pending authorization with that state exists already.
    DuplicateState,
    /// No record under that key.
    NotFound,
    /// The session exists and is past its expiry.
    Expired,
}

/// Why a request of the flow failed.
#[derive(Clone, Debug, PartialEq, Eq)]
pub enum AuthError {
    /// Client identifier, client secret or redirect address is not configured.
    MissingCredentials,
    /// The callback's state is absent, unknown, expired or was used before.
    InvalidState { state: Option<String> },
    /// The provider's callback reported an error in place of a code.
    ProviderDenied { reason: String },
    /// The token endpoint could not be reached.
    NetworkError { detail: String },
    /// The token endpoint answered with success and a body that is no token payload.
    TokenParseError,
    /// The token endpoint answered with a status outside the success range.
    ProviderRejected { status: u16, body: String },
}

/// What an `AuthError` holds.
pub enum AuthErrorModel {
    MissingCredentials,
    InvalidState { state: Option<Seq<char>> },
    ProviderDenied { reason: Seq<char> },
    NetworkError { detail: Seq<char> },
    TokenParseError,
    ProviderRejected { status: u16, body: Seq<char> },
}

impl View for AuthError {
    type V = AuthErrorModel;

    open spec fn view(&self) -> AuthErrorModel {
        match *self {
            AuthError::MissingCredentials => AuthErrorModel::MissingCredentials,
            AuthError::InvalidState { state } => AuthErrorModel::InvalidState {
                state: optional_text(state),
            },
            AuthError::ProviderDenied { reason } => AuthErrorModel::ProviderDenied {
                reason: reason@,
            },
            AuthError::NetworkError { detail } => AuthErrorModel::NetworkError { detail: detail@ },
            AuthError::TokenParseError => AuthErrorModel::TokenParseError,
            AuthError::ProviderRejected { status, body } => AuthErrorModel::ProviderRejected {
                status,
                body: body@,
            },
        }
    }
}

pub const STATUS_OK: u16 = 200;

pub const STATUS_BAD_REQUEST: u16 = 400;

pub const STATUS_UNAUTHORIZED: u16 = 401;

pub const STATUS_INTERNAL_SERVER_ERROR: u16 = 500;

/// The HTTP status that answers each failure: a client error for a failed
/// validation or a denial, a server error where the provider could not be
/// reached or understood.
pub open spec fn status_of(error: AuthErrorModel) -> u16 {
    match error {
        AuthErrorModel::MissingCredentials => STATUS_BAD_REQUEST,
        AuthErrorModel::InvalidState { .. } => STATUS_UNAUTHORIZED,
        AuthErrorModel::ProviderDenied { .. } => STATUS_UNAUTHORIZED,
        AuthErrorModel::NetworkError { .. } => STATUS_INTERNAL_SERVER_ERROR,
        AuthErrorModel::TokenParseError => STATUS_INTERNAL_SERVER_ERROR,
        AuthErrorModel::ProviderRejected { .. } => STATUS_UNAUTHORIZED,
    }
}

/// The message for the client: one fixed text for each kind of failure, so
/// that nothing the provider or the configuration said leaks out.
pub open spec fn message_of(error: AuthErrorModel) -> Seq<char> {
    match error {
        AuthErrorModel::MissingCredentials => "Missing credentials"@,
        AuthErrorModel::InvalidState { .. } => "Invalid state"@,
        AuthErrorModel::ProviderDenied { .. } => "Authorization denied"@,
        AuthErrorModel::NetworkError { .. } => "Provider unreachable"@,
        AuthErrorModel::TokenParseError => "Unexpected provider response"@,
        AuthErrorModel::ProviderRejected { .. } => "Authorization rejected"@,
    }
}

/// The HTTP status that answers each refusal of the store: a server error
/// where a fresh state was pending already, a client error where a session
/// is unknown or has expired.
pub open spec fn store_status_of(error: StoreError) -> u16 {
    match error {
        StoreError::DuplicateState => STATUS_INTERNAL_SERVER_ERROR,
        StoreError::NotFound => STATUS_UNAUTHORIZED,
        StoreError::Expired => STATUS_UNAUTHORIZED,
    }
}

/// The message for the client for each refusal of the store.
pub open spec fn store_message_of(error: StoreError) -> Seq<char> {
    match error {
        StoreError::DuplicateState => "Login could not be started"@,
        StoreError::NotFound => "Session not found"@,
        StoreError::Expired => "Session expired"@,
    }
}

impl StoreError {
    /// The HTTP status that answers this refusal.
    pub fn status_code(&self) -> (status: u16)
        ensures
            status == store_status_of(*self),
    {
        match self {
            StoreError::DuplicateState => STATUS_INTERNAL_SERVER_ERROR,
            StoreError::NotFound => STATUS_UNAUTHORIZED,
            StoreError::Expired => STATUS_UNAUTHORIZED,
        }
    }

    /// The message for the client.
    pub fn client_message(&self) -> (message: &'static str)
        ensures
            message@ == store_message_of(*self),
    {
        match self {
            StoreError::DuplicateState => "Login could not be started",
            StoreError::NotFound => "Session not found",
            StoreError::Expired => "Session expired",
        }
    }
}

impl AuthError {
    /// The HTTP status that answers this failure.
    pub fn status_code(&self) -> (status: u16)
        ensures
            status == status_of(self@),
    {
        match self {
            AuthError::MissingCredentials => STATUS_BAD_REQUEST,
            AuthError::InvalidState { .. } => STATUS_UNAUTHORIZED,
            AuthError::ProviderDenied { .. } => STATUS_UNAUTHORIZED,
            AuthError::NetworkError { .. } => STATUS_INTERNAL_SERVER_ERROR,
            AuthError::TokenParseError => STATUS_INTERNAL_SERVER_ERROR,
            AuthError::ProviderRejected { .. } => STATUS_UNAUTHORIZED,
        }
    }

    /// The message for the client.
    pub fn client_message(&self) -> (message: &'static str)
        ensures
            message@ == message_of(self@),
    {
        match self {
            AuthError::MissingCredentials => "Missing credentials",
            AuthError::InvalidState { .. } => "Invalid state",
            AuthError::ProviderDenied { .. } => "Authorization denied",
            AuthError::NetworkError { .. } => "Provider unreachable",
            AuthError::TokenParseError => "Unexpected provider response",
            AuthError::ProviderRejected { .. } => "Authorization rejected",
        }
    }
}

} // verus!
