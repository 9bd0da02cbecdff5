use vstd::prelude::*;
use vstd::std_specs::convert::FromSpecImpl;
use crate::config::MicrosoftIdentityConfig;
use crate::models::{
    DeviceCodeStart, DeviceCodeStartConversionError, DeviceCodeStartResponse, DeviceCodePollOutcome,
    DeviceCodePollStatus, OAuthErrorResponse, TokenSet, TokenSetConversionError, TokenSuccessResponse,
    UnexpectedDeviceCodePollError, device_code_start_from, opt_text, poll_status_for, token_response_accepted, token_response_error,
    token_set_from,
};
use crate::scope::join_with_space;
use crate::timing::Timestamp;
use crate::tokens::{DeviceCode, RefreshToken};
use crate::config::uuid_hyphenated;
use crate::url_path::{UrlParseError, url_parse_outcome};

verus! {

#[verifier::external_type_specification]
#[verifier::external_body]
pub struct ExReqwestError(reqwest::Error);

#[verifier::external_type_specification]
#[verifier::external_body]
pub struct ExJsonError(serde_json::Error);

#[verifier::external_type_specification]
#[verifier::external_body]
pub struct ExStatusCode(reqwest::StatusCode);

/// Why a request to an identity endpoint failed.
#[derive(Debug)]
pub enum RequestError<E> {
    Url(UrlParseError),
    SendRequest(reqwest::Error),
    ReadResponseBody(reqwest::Error),
    UnexpectedStatus { status: reqwest::StatusCode, body: String },
    ParseSuccessJson(serde_json::Error),
    InvalidResponse(E),
}

/// Why starting a device code flow failed.
pub type StartDeviceCodeError = RequestError<DeviceCodeStartConversionError>;

/// Why redeeming a device code failed.
#[derive(Debug)]
pub enum RedeemDeviceCodeError {
    Url(UrlParseError),
    SendRequest(reqwest::Error),
    ReadResponseBody(reqwest::Error),
    UnexpectedStatus { status: reqwest::StatusCode, body: String },
    ParseSuccessJson(serde_json::Error),
    InvalidSuccessResponse(TokenSetConversionError),
    ParseErrorJson(serde_json::Error),
    OAuthError { status: reqwest::StatusCode, error: String, description: Option<String>, body: String },
    InvalidPollResponse(UnexpectedDeviceCodePollError),
}

/// Why refreshing a token failed.
#[derive(Debug)]
pub enum RefreshTokenError {
    Url(UrlParseError),
    SendRequest(reqwest::Error),
    ReadResponseBody(reqwest::Error),
    UnexpectedStatus { status: reqwest::StatusCode, body: String },
    ParseSuccessJson(serde_json::Error),
    InvalidResponse(TokenSetConversionError),
    ParseErrorJson(serde_json::Error),
    OAuthError { status: reqwest::StatusCode, error: String, description: Option<String>, body: String },
}

/// Why posting a form failed.
#[derive(Debug)]
pub enum PostFormError {
    Send(reqwest::Error),
    Read(reqwest::Error),
}

/// Why a request to the token endpoint failed before its answer could be read.
#[derive(Debug)]
pub enum TokenEndpointRequestError {
    Url(UrlParseError),
    Send(reqwest::Error),
    Read(reqwest::Error),
    UnexpectedStatus { status: reqwest::StatusCode, body: String },
    ParseSuccessJson(serde_json::Error),
    ParseErrorJson(serde_json::Error),
}

impl From<PostFormError> for StartDeviceCodeError {
    fn from(value: PostFormError) -> Self {
        match value {
            PostFormError::Send(source) => RequestError::SendRequest(source),
            PostFormError::Read(source) => RequestError::ReadResponseBody(source),
        }
    }
}

impl FromSpecImpl<PostFormError> for StartDeviceCodeError {
    open spec fn obeys_from_spec() -> bool {
        true
    }

    open spec fn from_spec(value: PostFormError) -> Self {
        match value {
            PostFormError::Send(source) => RequestError::SendRequest(source),
            PostFormError::Read(source) => RequestError::ReadResponseBody(source),
        }
    }
}

impl From<PostFormError> for TokenEndpointRequestError {
    fn from(value: PostFormError) -> Self {
        match value {
            PostFormError::Send(source) => TokenEndpointRequestError::Send(source),
            PostFormError::Read(source) => TokenEndpointRequestError::Read(source),
        }
    }
}

impl FromSpecImpl<PostFormError> for TokenEndpointRequestError {
    open spec fn obeys_from_spec() -> bool {
        true
    }

    open spec fn from_spec(value: PostFormError) -> Self {
        match value {
            PostFormError::Send(source) => TokenEndpointRequestError::Send(source),
            PostFormError::Read(source) => TokenEndpointRequestError::Read(source),
        }
    }
}

impl From<TokenEndpointRequestError> for RedeemDeviceCodeError {
    fn from(value: TokenEndpointRequestError) -> Self {
        match value {
            TokenEndpointRequestError::Url(source) => RedeemDeviceCodeError::Url(source),
            TokenEndpointRequestError::Send(source) => RedeemDeviceCodeError::SendRequest(source),
            TokenEndpointRequestError::Read(source) => RedeemDeviceCodeError::ReadResponseBody(source),
            TokenEndpointRequestError::UnexpectedStatus { status, body } => RedeemDeviceCodeError::UnexpectedStatus { status, body },
            TokenEndpointRequestError::ParseSuccessJson(source) => RedeemDeviceCodeError::ParseSuccessJson(source),
            TokenEndpointRequestError::ParseErrorJson(source) => RedeemDeviceCodeError::ParseErrorJson(source),
        }
    }
}

impl FromSpecImpl<TokenEndpointRequestError> for RedeemDeviceCodeError {
    open spec fn obeys_from_spec() -> bool {
        true
    }

    open spec fn from_spec(value: TokenEndpointRequestError) -> Self {
        match value {
            TokenEndpointRequestError::Url(source) => RedeemDeviceCodeError::Url(source),
            TokenEndpointRequestError::Send(source) => RedeemDeviceCodeError::SendRequest(source),
            TokenEndpointRequestError::Read(source) => RedeemDeviceCodeError::ReadResponseBody(source),
            TokenEndpointRequestError::UnexpectedStatus { status, body } => RedeemDeviceCodeError::UnexpectedStatus { status, body },
            TokenEndpointRequestError::ParseSuccessJson(source) => RedeemDeviceCodeError::ParseSuccessJson(source),
            TokenEndpointRequestError::ParseErrorJson(source) => RedeemDeviceCodeError::ParseErrorJson(source),
        }
    }
}

impl From<TokenEndpointRequestError> for RefreshTokenError {
    fn from(value: TokenEndpointRequestError) -> Self {
        match value {
            TokenEndpointRequestError::Url(source) => RefreshTokenError::Url(source),
            TokenEndpointRequestError::Send(source) => RefreshTokenError::SendRequest(source),
            TokenEndpointRequestError::Read(source) => RefreshTokenError::ReadResponseBody(source),
            TokenEndpointRequestError::UnexpectedStatus { status, body } => RefreshTokenError::UnexpectedStatus { status, body },
            TokenEndpointRequestError::ParseSuccessJson(source) => RefreshTokenError::ParseSuccessJson(source),
            TokenEndpointRequestError::ParseErrorJson(source) => RefreshTokenError::ParseErrorJson(source),
        }
    }
}

impl FromSpecImpl<TokenEndpointRequestError> for RefreshTokenError {
    open spec fn obeys_from_spec() -> bool {
        true
    }

    open spec fn from_spec(value: TokenEndpointRequestError) -> Self {
        match value {
            TokenEndpointRequestError::Url(source) => RefreshTokenError::Url(source),
            TokenEndpointRequestError::Send(source) => RefreshTokenError::SendRequest(source),
            TokenEndpointRequestError::Read(source) => RefreshTokenError::ReadResponseBody(source),
            TokenEndpointRequestError::UnexpectedStatus { status, body } => RefreshTokenError::UnexpectedStatus { status, body },
            TokenEndpointRequestError::ParseSuccessJson(source) => RefreshTokenError::ParseSuccessJson(source),
            TokenEndpointRequestError::ParseErrorJson(source) => RefreshTokenError::ParseErrorJson(source),
        }
    }
}

impl<E> From<UrlParseError> for RequestError<E> {
    fn from(value: UrlParseError) -> Self {
        RequestError::Url(value)
    }
}

impl<E> FromSpecImpl<UrlParseError> for RequestError<E> {
    open spec fn obeys_from_spec() -> bool {
        true
    }

    open spec fn from_spec(value: UrlParseError) -> Self {
        RequestError::Url(value)
    }
}

impl From<UrlParseError> for RedeemDeviceCodeError {
    fn from(value: UrlParseError) -> Self {
        RedeemDeviceCodeError::Url(value)
    }
}

impl FromSpecImpl<UrlParseError> for RedeemDeviceCodeError {
    open spec fn obeys_from_spec() -> bool {
        true
    }

    open spec fn from_spec(value: UrlParseError) -> Self {
        RedeemDeviceCodeError::Url(value)
    }
}

impl From<TokenSetConversionError> for RedeemDeviceCodeError {
    fn from(value: TokenSetConversionError) -> Self {
        RedeemDeviceCodeError::InvalidSuccessResponse(value)
    }
}

impl FromSpecImpl<TokenSetConversionError> for RedeemDeviceCodeError {
    open spec fn obeys_from_spec() -> bool {
        true
    }

    open spec fn from_spec(value: TokenSetConversionError) -> Self {
        RedeemDeviceCodeError::InvalidSuccessResponse(value)
    }
}

impl From<UnexpectedDeviceCodePollError> for RedeemDeviceCodeError {
    fn from(value: UnexpectedDeviceCodePollError) -> Self {
        RedeemDeviceCodeError::InvalidPollResponse(value)
    }
}

impl FromSpecImpl<UnexpectedDeviceCodePollError> for RedeemDeviceCodeError {
    open spec fn obeys_from_spec() -> bool {
        true
    }

    open spec fn from_spec(value: UnexpectedDeviceCodePollError) -> Self {
        RedeemDeviceCodeError::InvalidPollResponse(value)
    }
}

impl From<UrlParseError> for RefreshTokenError {
    fn from(value: UrlParseError) -> Self {
        RefreshTokenError::Url(value)
    }
}

impl FromSpecImpl<UrlParseError> for RefreshTokenError {
    open spec fn obeys_from_spec() -> bool {
        true
    }

    open spec fn from_spec(value: UrlParseError) -> Self {
        RefreshTokenError::Url(value)
    }
}

impl From<TokenSetConversionError> for RefreshTokenError {
    fn from(value: TokenSetConversionError) -> Self {
        RefreshTokenError::InvalidResponse(value)
    }
}

impl FromSpecImpl<TokenSetConversionError> for RefreshTokenError {
    open spec fn obeys_from_spec() -> bool {
        true
    }

    open spec fn from_spec(value: TokenSetConversionError) -> Self {
        RefreshTokenError::InvalidResponse(value)
    }
}

impl From<UrlParseError> for TokenEndpointRequestError {
    fn from(value: UrlParseError) -> Self {
        TokenEndpointRequestError::Url(value)
    }
}

impl FromSpecImpl<UrlParseError> for TokenEndpointRequestError {
    open spec fn obeys_from_spec() -> bool {
        true
    }

    open spec fn from_spec(value: UrlParseError) -> Self {
        TokenEndpointRequestError::Url(value)
    }
}


/// The texts of form fields.
pub open spec fn form_texts(fields: Seq<(String, String)>) -> Seq<(Seq<char>, Seq<char>)> {
    fields.map_values(|f: (String, String)| (f.0@, f.1@))
}

/// The grant type of a device code redemption.
pub open spec fn device_code_grant_type() -> Seq<char> {
    "urn:ietf:params:oauth:grant-type:device_code"@
}

/// The form that starts a device code flow: the client id, then the configured scopes.
pub fn device_code_request(config: &MicrosoftIdentityConfig) -> (r: Vec<(String, String)>)
    ensures
        form_texts(r@).len() == 2,
        form_texts(r@)[0] == ("client_id"@, uuid_hyphenated(config.client_id)),
        form_texts(r@)[1] == ("scope"@, join_with_space(config.scopes@)),
{
    let mut fields: Vec<(String, String)> = Vec::new();
    fields.push(("client_id".to_owned(), crate::config::uuid_text(config.client_id)));
    fields.push(("scope".to_owned(), config.scopes.scope_string()));
    fields
}

/// The form that redeems a device code: the device code grant type, the client id, then the
/// device code.
pub fn device_token_request(config: &MicrosoftIdentityConfig, device_code: &DeviceCode) -> (r: Vec<(String, String)>)
    ensures
        form_texts(r@).len() == 3,
        form_texts(r@)[0] == ("grant_type"@, device_code_grant_type()),
        form_texts(r@)[1] == ("client_id"@, uuid_hyphenated(config.client_id)),
        form_texts(r@)[2] == ("device_code"@, device_code@),
{
    let mut fields: Vec<(String, String)> = Vec::new();
    fields.push(("grant_type".to_owned(), "urn:ietf:params:oauth:grant-type:device_code".to_owned()));
    fields.push(("client_id".to_owned(), crate::config::uuid_text(config.client_id)));
    fields.push(("device_code".to_owned(), device_code.expose().to_owned()));
    fields
}

/// The form that redeems a refresh token: the refresh grant type, the client id, the refresh
/// token, then the refresh scopes when they are configured.
pub fn refresh_token_request(config: &MicrosoftIdentityConfig, refresh_token: &RefreshToken) -> (r: Vec<(String, String)>)
    ensures
        form_texts(r@).len() == if config.refresh_scopes is Some { 4int } else { 3int },
        form_texts(r@)[0] == ("grant_type"@, "refresh_token"@),
        form_texts(r@)[1] == ("client_id"@, uuid_hyphenated(config.client_id)),
        form_texts(r@)[2] == ("refresh_token"@, refresh_token@),
        config.refresh_scopes matches Some(scopes) ==> form_texts(r@)[3] == ("scope"@, join_with_space(scopes@)),
{
    let mut fields: Vec<(String, String)> = Vec::new();
    fields.push(("grant_type".to_owned(), "refresh_token".to_owned()));
    fields.push(("client_id".to_owned(), crate::config::uuid_text(config.client_id)));
    fields.push(("refresh_token".to_owned(), refresh_token.expose().to_owned()));
    match &config.refresh_scopes {
        Some(scopes) => {
            fields.push(("scope".to_owned(), scopes.scope_string()));
        },
        None => {},
    }
    fields
}

/// Whether an HTTP status is a success (200 to 299).
pub fn is_success_status(status: u16) -> (r: bool)
    ensures
        r == (200 <= status && status <= 299),
{
    200 <= status && status <= 299
}

/// How the token endpoint's answer is to be read, given its status.
#[derive(Debug, Clone, Copy, PartialEq, Eq, Structural)]
pub enum TokenResponseKind {
    /// A success: read the tokens.
    Success,
    /// 400 or 401: read the OAuth error.
    OAuthError,
    /// Any other status: the answer is refused as it stands.
    UnexpectedStatus,
}

/// How to read the token endpoint's answer: tokens on success, an OAuth error on 400 and 401,
/// and nothing else.
pub fn token_response_kind(status: u16) -> (r: TokenResponseKind)
    ensures
        200 <= status <= 299 ==> r == TokenResponseKind::Success,
        (status == 400 || status == 401) ==> r == TokenResponseKind::OAuthError,
        !(200 <= status <= 299) && status != 400 && status != 401 ==> r == TokenResponseKind::UnexpectedStatus,
{
    if is_success_status(status) {
        TokenResponseKind::Success
    } else if status != 400 && status != 401 {
        TokenResponseKind::UnexpectedStatus
    } else {
        TokenResponseKind::OAuthError
    }
}

/// The token endpoint's answer, once read.
#[derive(Debug)]
pub enum TokenEndpointResponse {
    Success { json: TokenSuccessResponse, request_timestamp: Timestamp },
    OAuthError { status: reqwest::StatusCode, body: String, error: OAuthErrorResponse },
}

/// The result of starting a device code flow, from the device authorization endpoint's
/// successful answer sent at `request_timestamp`.
pub fn device_code_start_outcome(json: DeviceCodeStartResponse, request_timestamp: Timestamp) -> (r: Result<DeviceCodeStart, StartDeviceCodeError>)
    ensures
        match url_parse_outcome(json.verification_uri@) {
            Err(e) => r == Err::<DeviceCodeStart, StartDeviceCodeError>(
                RequestError::InvalidResponse(DeviceCodeStartConversionError::InvalidVerificationUri(e)),
            ),
            Ok(uri) => if json.expires_in == 0 {
                r == Err::<DeviceCodeStart, StartDeviceCodeError>(
                    RequestError::InvalidResponse(DeviceCodeStartConversionError::ZeroExpiresIn),
                )
            } else {
                r matches Ok(start) && device_code_start_from(start, json, uri, request_timestamp)
            },
        },
{
    match DeviceCodeStart::from_response_at(json, request_timestamp) {
        Ok(start) => Ok(start),
        Err(e) => Err(RequestError::InvalidResponse(e)),
    }
}

/// The result of redeeming a device code, from the token endpoint's answer: the tokens, the
/// poll state that an OAuth error names, or the error.
pub fn redeem_device_code_outcome(response: TokenEndpointResponse) -> (r: Result<DeviceCodePollOutcome, RedeemDeviceCodeError>)
    ensures
        match response {
            TokenEndpointResponse::Success { json, request_timestamp } => {
                &&& r is Ok <==> token_response_accepted(json)
                &&& match r {
                    Ok(DeviceCodePollOutcome::Authorized(t)) => token_set_from(t, json, request_timestamp)
                        && opt_text(t.refresh_token) == opt_text(json.refresh_token),
                    Ok(DeviceCodePollOutcome::Status(_)) => false,
                    Err(RedeemDeviceCodeError::InvalidSuccessResponse(e)) => token_response_error(json, e),
                    Err(_) => false,
                }
            },
            TokenEndpointResponse::OAuthError { status, body, error } => match poll_status_for(error) {
                Ok(s) => r == Ok::<DeviceCodePollOutcome, RedeemDeviceCodeError>(DeviceCodePollOutcome::Status(s)),
                Err(u) => r == Err::<DeviceCodePollOutcome, RedeemDeviceCodeError>(
                    RedeemDeviceCodeError::OAuthError { status, error: u.error, description: u.description, body },
                ),
            },
        },
{
    match response {
        TokenEndpointResponse::Success { json, request_timestamp } => match TokenSet::from_response_at(json, request_timestamp) {
            Ok(t) => Ok(DeviceCodePollOutcome::Authorized(t)),
            Err(e) => Err(RedeemDeviceCodeError::InvalidSuccessResponse(e)),
        },
        TokenEndpointResponse::OAuthError { status, body, error } => match DeviceCodePollStatus::try_from(error) {
            Ok(poll_status) => Ok(DeviceCodePollOutcome::Status(poll_status)),
            Err(unexpected) => Err(RedeemDeviceCodeError::OAuthError {
                status,
                error: unexpected.error,
                description: unexpected.description,
                body,
            }),
        },
    }
}

/// The result of refreshing with `refresh_token`, from the token endpoint's answer: the new
/// tokens (keeping `refresh_token` when the answer names none), or the error.
pub fn refresh_token_outcome(response: TokenEndpointResponse, refresh_token: &RefreshToken) -> (r: Result<TokenSet, RefreshTokenError>)
    ensures
        match response {
            TokenEndpointResponse::Success { json, request_timestamp } => {
                &&& r is Ok <==> token_response_accepted(json)
                &&& match r {
                    Ok(t) => token_set_from(t, json, request_timestamp) && opt_text(t.refresh_token) == Some(
                        match json.refresh_token {
                            Some(fresh) => fresh@,
                            None => refresh_token@,
                        },
                    ),
                    Err(RefreshTokenError::InvalidResponse(e)) => token_response_error(json, e),
                    Err(_) => false,
                }
            },
            TokenEndpointResponse::OAuthError { status, body, error } => r == Err::<TokenSet, RefreshTokenError>(
                RefreshTokenError::OAuthError { status, error: error.error, description: error.error_description, body },
            ),
        },
{
    match response {
        TokenEndpointResponse::Success { json, request_timestamp } => match TokenSet::from_refresh_response_at(json, request_timestamp, refresh_token) {
            Ok(t) => Ok(t),
            Err(e) => Err(RefreshTokenError::InvalidResponse(e)),
        },
        TokenEndpointResponse::OAuthError { status, body, error } => Err(RefreshTokenError::OAuthError {
            status,
            error: error.error,
            description: error.error_description,
            body,
        }),
    }
}

}
