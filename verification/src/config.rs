//! The client's configuration: who this service is to the provider.

use vstd::prelude::*;

use crate::error::AuthError;
use crate::text::optional_text;

verus! {

/// The scope that a login asks for where no other is configured.
pub const DEFAULT_SCOPE: &'static str = "user-top-read";

/// The values that the provider knows this service by. They are handed to
/// each operation that needs them; nothing is kept in a global.
#[derive(Clone, Debug, PartialEq, Eq)]
pub struct ClientConfig {
    pub client_id: String,
    pub client_secret: String,
    /// Where the provider sends the browser back to.
    pub redirect_uri: String,
    /// The scope that a login asks for.
    pub scope: String,
}

/// What a `ClientConfig` holds.
pub struct ConfigModel {
    pub client_id: Seq<char>,
    pub client_secret: Seq<char>,
    pub redirect_uri: Seq<char>,
    pub scope: Seq<char>,
}

impl View for ClientConfig {
    type V = ConfigModel;

    open spec fn view(&self) -> ConfigModel {
        ConfigModel {
            client_id: self.client_id@,
            client_secret: self.client_secret@,
            redirect_uri: self.redirect_uri@,
            scope: self.scope@,
        }
    }
}

/// The configuration made of four values, where all four are there.
pub open spec fn configured(
    client_id: Option<Seq<char>>,
    client_secret: Option<Seq<char>>,
    redirect_uri: Option<Seq<char>>,
    scope: Option<Seq<char>>,
) -> Option<ConfigModel> {
    if client_id is Some && client_secret is Some && redirect_uri is Some && scope is Some {
        Some(
            ConfigModel {
                client_id: client_id->0,
                client_secret: client_secret->0,
                redirect_uri: redirect_uri->0,
                scope: scope->0,
            },
        )
    } else {
        None
    }
}

impl ClientConfig {
    /// The configuration made of the four values as they were found, each
    /// absent where it is not set. One that is absent gives
    /// `MissingCredentials`.
    pub fn from_values(
        client_id: Option<String>,
        client_secret: Option<String>,
        redirect_uri: Option<String>,
        scope: Option<String>,
    ) -> (config: Result<ClientConfig, AuthError>)
        ensures
            match config {
                Ok(c) => configured(
                    optional_text(client_id),
                    optional_text(client_secret),
                    optional_text(redirect_uri),
                    optional_text(scope),
                ) == Some(c@),
                Err(e) => e == AuthError::MissingCredentials && configured(
                    optional_text(client_id),
                    optional_text(client_secret),
                    optional_text(redirect_uri),
                    optional_text(scope),
                ) is None,
            },
    {
        match (client_id, client_secret, redirect_uri, scope) {
            (Some(client_id), Some(client_secret), Some(redirect_uri), Some(scope)) => Ok(
                ClientConfig { client_id, client_secret, redirect_uri, scope },
            ),
            _ => Err(AuthError::MissingCredentials),
        }
    }
}

} // verus!
