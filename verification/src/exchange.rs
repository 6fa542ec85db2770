//! The exchange of an authorization code for tokens: the request that goes
//! to the provider's token endpoint, and the reading of what comes back.
//!
//! Sending is left to the caller. This module says what is sent and what
//! the answer means.

use vstd::prelude::*;
use vstd::string::*;
use vstd::utf8::*;

use crate::error::{AuthError, AuthErrorModel};
use crate::json::{
    integer_member, json_content, json_parse, parse, read_integer, read_text, text_member,
    JsonModel,
};
use crate::percent::{percent_encode, percent_encoded};
use crate::text::{lemma_utf8_of_concat, optional_text};

verus! {

/// The provider's token endpoint.
pub const TOKEN_ENDPOINT: &'static str = "https://accounts.spotify.com/api/token";

/// The media type of the request's body.
pub const FORM_CONTENT_TYPE: &'static str = "application/x-www-form-urlencoded";

/// The media type asked of the provider.
pub const JSON_MEDIA_TYPE: &'static str = "application/json";

/// The seconds after which a request to the token endpoint is given up.
pub const EXCHANGE_TIMEOUT_SECONDS: u64 = 10;

/// A request to the token endpoint, sent with the method POST.
#[derive(Clone, Debug, PartialEq, Eq)]
pub struct TokenRequest {
    pub url: String,
    /// The value of the header `Authorization`.
    pub authorization: String,
    /// The value of the header `Content-Type`.
    pub content_type: String,
    /// The value of the header `Accept`.
    pub accept: String,
    pub body: String,
}

/// What a `TokenRequest` holds.
pub struct TokenRequestModel {
    pub url: Seq<char>,
    pub authorization: Seq<char>,
    pub content_type: Seq<char>,
    pub accept: Seq<char>,
    pub body: Seq<char>,
}

impl View for TokenRequest {
    type V = TokenRequestModel;

    open spec fn view(&self) -> TokenRequestModel {
        TokenRequestModel {
            url: self.url@,
            authorization: self.authorization@,
            content_type: self.content_type@,
            accept: self.accept@,
            body: self.body@,
        }
    }
}

/// The token payload of the provider.
#[derive(Clone, Debug, PartialEq, Eq)]
pub struct AuthResponse {
    pub access_token: String,
    pub token_type: String,
    pub scope: String,
    /// The seconds, counted from the exchange, for which the access token
    /// is valid.
    pub expires_in: i32,
    pub refresh_token: String,
}

/// What an `AuthResponse` holds.
pub struct TokenModel {
    pub access_token: Seq<char>,
    pub token_type: Seq<char>,
    pub scope: Seq<char>,
    pub expires_in: int,
    pub refresh_token: Seq<char>,
}

impl View for AuthResponse {
    type V = TokenModel;

    open spec fn view(&self) -> TokenModel {
        TokenModel {
            access_token: self.access_token@,
            token_type: self.token_type@,
            scope: self.scope@,
            expires_in: self.expires_in as int,
            refresh_token: self.refresh_token@,
        }
    }
}

/// What came of sending a request.
#[derive(Clone, Debug, PartialEq, Eq)]
pub enum TransportOutcome {
    /// No answer: the connection failed or the time ran out.
    Failed { detail: String },
    /// An answer, with its HTTP status and its body as text.
    Answered { status: u16, body: String },
}

/// The standard base64 form, with padding, of a sequence of bytes.
pub uninterp spec fn base64_standard(bytes: Seq<u8>) -> Seq<char>;

/// Whether base64 can encode that many bytes: the length of the encoded
/// form, four characters for each three bytes begun, must fit `usize`.
pub open spec fn base64_fits(length: int) -> bool {
    length / 3 * 4 + 4 <= usize::MAX
}

/// `base64::encode`: the standard base64 form, with padding, of the bytes.
/// The crate panics where the encoded length overflows `usize`; such
/// inputs are left out.
#[verifier::external_body]
#[allow(deprecated)]
fn base64_encode(bytes: &[u8]) -> (encoded: String)
    requires
        base64_fits(bytes@.len() as int),
    ensures
        encoded@ == base64_standard(bytes@),
{
    base64::encode(bytes)
}

/// The text `client_id:client_secret`.
pub open spec fn credentials_text(client_id: Seq<char>, client_secret: Seq<char>) -> Seq<char> {
    client_id + ":"@ + client_secret
}

/// Whether the credentials are short enough for base64.
pub open spec fn credentials_fit(client_id: Seq<char>, client_secret: Seq<char>) -> bool {
    base64_fits(encode_utf8(credentials_text(client_id, client_secret)).len() as int)
}

/// The value of the header `Authorization` for HTTP Basic authentication
/// with the client's credentials.
pub open spec fn authorization_header(client_id: Seq<char>, client_secret: Seq<char>) -> Seq<
    char,
> {
    "Basic "@ + base64_standard(encode_utf8(credentials_text(client_id, client_secret)))
}

/// The form-encoded body that asks for the tokens of an authorization code.
pub open spec fn token_form(code: Seq<char>, redirect_uri: Seq<char>) -> Seq<char> {
    "grant_type=authorization_code&code="@ + percent_encoded(code) + "&redirect_uri="@
        + percent_encoded(redirect_uri)
}

/// The request that exchanges `code`.
pub open spec fn token_request(
    code: Seq<char>,
    redirect_uri: Seq<char>,
    client_id: Seq<char>,
    client_secret: Seq<char>,
) -> TokenRequestModel {
    TokenRequestModel {
        url: TOKEN_ENDPOINT@,
        authorization: authorization_header(client_id, client_secret),
        content_type: FORM_CONTENT_TYPE@,
        accept: JSON_MEDIA_TYPE@,
        body: token_form(code, redirect_uri),
    }
}

/// Whether the credentials are short enough for base64. This holds of every
/// pair of strings that a machine has room for.
pub fn check_credentials_fit(client_id: &str, client_secret: &str) -> (fit: bool)
    ensures
        fit == credentials_fit(client_id@, client_secret@),
{
    proof {
        lemma_utf8_of_concat(client_id@ + ":"@, client_secret@);
        lemma_utf8_of_concat(client_id@, ":"@);
        reveal_strlit(":");
        assert(is_ascii_chars(":"@));
        is_ascii_chars_encode_utf8(":"@);
    }
    let total: u128 = client_id.as_bytes().len() as u128 + 1 + client_secret.as_bytes().len() as u128;
    total / 3 * 4 + 4 <= usize::MAX as u128
}

/// The header value `Basic ` followed by the encoded credentials.
pub fn basic_header(encoded_credentials: &str) -> (header: String)
    ensures
        header@ == "Basic "@ + encoded_credentials@,
{
    let mut header = "Basic ".to_owned();
    header.append(encoded_credentials);
    header
}

/// The value of the header `Authorization`: `Basic`, then the base64 form
/// of `client_id:client_secret`.
pub fn basic_authorization(client_id: &str, client_secret: &str) -> (header: String)
    requires
        credentials_fit(client_id@, client_secret@),
    ensures
        header@ == authorization_header(client_id@, client_secret@),
{
    let mut joined = client_id.to_owned();
    joined.append(":");
    joined.append(client_secret);
    let encoded = base64_encode(joined.as_str().as_bytes());
    basic_header(encoded.as_str())
}

/// The form-encoded body: the grant type, the code and the redirect address.
pub fn token_request_body(code: &str, redirect_uri: &str) -> (body: String)
    ensures
        body@ == token_form(code@, redirect_uri@),
{
    let mut body = "grant_type=authorization_code&code=".to_owned();
    let code_value = percent_encode(code);
    body.append(code_value.as_str());
    body.append("&redirect_uri=");
    let uri_value = percent_encode(redirect_uri);
    body.append(uri_value.as_str());
    body
}

/// The request that exchanges `code` for tokens: a POST to the token
/// endpoint, authenticated with the client's credentials.
pub fn build_token_request(
    code: &str,
    redirect_uri: &str,
    client_id: &str,
    client_secret: &str,
) -> (request: TokenRequest)
    requires
        credentials_fit(client_id@, client_secret@),
    ensures
        request@ == token_request(code@, redirect_uri@, client_id@, client_secret@),
{
    TokenRequest {
        url: TOKEN_ENDPOINT.to_owned(),
        authorization: basic_authorization(client_id, client_secret),
        content_type: FORM_CONTENT_TYPE.to_owned(),
        accept: JSON_MEDIA_TYPE.to_owned(),
        body: token_request_body(code, redirect_uri),
    }
}

/// The token payload made of five members, where each is there and the
/// lifetime fits `i32`.
pub open spec fn token_of_members(
    access_token: Option<Seq<char>>,
    token_type: Option<Seq<char>>,
    scope: Option<Seq<char>>,
    expires_in: Option<i64>,
    refresh_token: Option<Seq<char>>,
) -> Option<TokenModel> {
    if access_token is Some && token_type is Some && scope is Some && expires_in is Some
        && refresh_token is Some && i32::MIN <= expires_in->0 <= i32::MAX {
        Some(
            TokenModel {
                access_token: access_token->0,
                token_type: token_type->0,
                scope: scope->0,
                expires_in: expires_in->0 as int,
                refresh_token: refresh_token->0,
            },
        )
    } else {
        None
    }
}

/// The token payload in a JSON document: an object with the strings
/// `access_token`, `token_type`, `scope` and `refresh_token` and the integer
/// `expires_in`. Further members are passed over.
pub open spec fn token_in_document(document: JsonModel) -> Option<TokenModel> {
    token_of_members(
        text_member(document, "access_token"@),
        text_member(document, "token_type"@),
        text_member(document, "scope"@),
        integer_member(document, "expires_in"@),
        text_member(document, "refresh_token"@),
    )
}

/// The token payload that a body denotes.
pub open spec fn token_in_body(body: Seq<char>) -> Option<TokenModel> {
    match json_parse(body) {
        Some(document) => token_in_document(document),
        None => None,
    }
}

/// Makes the token payload of its five members, as far as they were found.
/// A member that is missing, or a lifetime outside `i32`, is a
/// `TokenParseError`.
pub fn token_from_fields(
    access_token: Option<String>,
    token_type: Option<String>,
    scope: Option<String>,
    expires_in: Option<i64>,
    refresh_token: Option<String>,
) -> (token: Result<AuthResponse, AuthError>)
    ensures
        match token {
            Ok(t) => token_of_members(
                optional_text(access_token),
                optional_text(token_type),
                optional_text(scope),
                expires_in,
                optional_text(refresh_token),
            ) == Some(t@),
            Err(e) => e@ == AuthErrorModel::TokenParseError && token_of_members(
                optional_text(access_token),
                optional_text(token_type),
                optional_text(scope),
                expires_in,
                optional_text(refresh_token),
            ) is None,
        },
{
    match (access_token, token_type, scope, expires_in, refresh_token) {
        (Some(access_token), Some(token_type), Some(scope), Some(seconds), Some(refresh_token)) => {
            if -0x8000_0000 <= seconds && seconds <= 0x7FFF_FFFF {
                Ok(
                    AuthResponse {
                        access_token,
                        token_type,
                        scope,
                        expires_in: seconds as i32,
                        refresh_token,
                    },
                )
            } else {
                Err(AuthError::TokenParseError)
            }
        },
        _ => Err(AuthError::TokenParseError),
    }
}

/// Reads the token payload out of the body of a successful answer.
pub fn parse_token_payload(body: &str) -> (token: Result<AuthResponse, AuthError>)
    ensures
        match token {
            Ok(t) => token_in_body(body@) == Some(t@),
            Err(e) => e@ == AuthErrorModel::TokenParseError && token_in_body(body@) is None,
        },
{
    match parse(body) {
        None => Err(AuthError::TokenParseError),
        Some(document) => {
            let access_token = read_text(&document, "access_token");
            let token_type = read_text(&document, "token_type");
            let scope = read_text(&document, "scope");
            let expires_in = read_integer(&document, "expires_in");
            let refresh_token = read_text(&document, "refresh_token");
            token_from_fields(access_token, token_type, scope, expires_in, refresh_token)
        },
    }
}

/// Whether an HTTP status is in the success range.
pub open spec fn is_success(status: u16) -> bool {
    200 <= status <= 299
}

/// What the outcome of the exchange means.
pub open spec fn exchanged(outcome: TransportOutcome) -> Result<TokenModel, AuthErrorModel> {
    match outcome {
        TransportOutcome::Failed { detail } => Err(AuthErrorModel::NetworkError { detail: detail@ }),
        TransportOutcome::Answered { status, body } => if is_success(status) {
            match token_in_body(body@) {
                Some(token) => Ok(token),
                None => Err(AuthErrorModel::TokenParseError),
            }
        } else {
            Err(AuthErrorModel::ProviderRejected { status, body: body@ })
        },
    }
}

/// The view of an exchange's result.
pub open spec fn exchange_view(result: Result<AuthResponse, AuthError>) -> Result<
    TokenModel,
    AuthErrorModel,
> {
    match result {
        Ok(token) => Ok(token@),
        Err(error) => Err(error@),
    }
}

/// Reads the outcome of the exchange. No answer is a `NetworkError`. An
/// answer with a status from 200 to 299 must hold the token payload, else
/// it is a `TokenParseError`. An answer with any other status is a
/// `ProviderRejected` that keeps the status and the body as they came.
pub fn interpret_outcome(outcome: TransportOutcome) -> (result: Result<AuthResponse, AuthError>)
    ensures
        exchange_view(result) == exchanged(outcome),
{
    match outcome {
        TransportOutcome::Failed { detail } => Err(AuthError::NetworkError { detail }),
        TransportOutcome::Answered { status, body } => {
            if 200 <= status && status <= 299 {
                parse_token_payload(body.as_str())
            } else {
                Err(AuthError::ProviderRejected { status, body })
            }
        },
    }
}

/// Exchanges an authorization code for tokens. The request of
/// `build_token_request` is handed to `send`, which does the sending and
/// says what came of it; that outcome is read by `interpret_outcome`.
/// Nothing is sent twice: a failure is the caller's to retry.
pub fn exchange<F: FnOnce(TokenRequest) -> TransportOutcome>(
    code: &str,
    redirect_uri: &str,
    client_id: &str,
    client_secret: &str,
    send: F,
) -> (result: Result<AuthResponse, AuthError>)
    requires
        credentials_fit(client_id@, client_secret@),
        forall|request: TokenRequest| #[trigger] call_requires(send, (request,)),
    ensures
        exists|request: TokenRequest, outcome: TransportOutcome|
            {
                &&& request@ == token_request(code@, redirect_uri@, client_id@, client_secret@)
                &&& #[trigger] call_ensures(send, (request,), outcome)
                &&& exchange_view(result) == exchanged(outcome)
            },
{
    let request = build_token_request(code, redirect_uri, client_id, client_secret);
    let ghost sent = request;
    let outcome = send(request);
    let result = interpret_outcome(outcome);
    proof {
        assert(call_ensures(send, (sent,), outcome));
    }
    result
}

} // verus!
