use ms_identity_auth::client::{
    device_code_request, device_code_start_outcome, device_token_request, is_success_status, redeem_device_code_outcome,
    refresh_token_outcome, refresh_token_request, token_response_kind, RedeemDeviceCodeError, RefreshTokenError,
    PostFormError, RequestError, StartDeviceCodeError, TokenEndpointRequestError, TokenEndpointResponse, TokenResponseKind,
};
use ms_identity_auth::config::MicrosoftIdentityConfig;
use ms_identity_auth::models::{
    DeviceCodePollOutcome, DeviceCodePollStatus, DeviceCodeStart, DeviceCodeStartConversionError, DeviceCodeStartResponse,
    OAuthErrorResponse, TokenSet, TokenSetConversionError, TokenSuccessResponse, UnexpectedDeviceCodePollError,
};
use ms_identity_auth::scope::{ParseScopeError, ParseScopesError, Scopes};
use ms_identity_auth::tenant::MicrosoftTenant;
use ms_identity_auth::timing::{Duration, Timestamp};
use ms_identity_auth::tokens::{AccessToken, DeviceCode, RefreshToken, TokenType, UserCode};
use ms_identity_auth::url_path::{Url, UrlParseError};

fn at(secs: i128) -> Timestamp {
    Timestamp::from_unix_nanos(secs * 1_000_000_000).unwrap()
}

fn start_response(interval: Option<u64>, expires_in: u64, uri: &str) -> DeviceCodeStartResponse {
    DeviceCodeStartResponse {
        device_code: String::from("DEVICE-CODE"),
        user_code: String::from("ABCD-EFGH"),
        verification_uri: String::from(uri),
        expires_in,
        interval,
        message: String::from("Go to the page and enter the code"),
    }
}

fn token_response(expires_in: Option<u64>, refresh: Option<&str>, scope: Option<&str>) -> TokenSuccessResponse {
    TokenSuccessResponse {
        access_token: String::from("access"),
        token_type: String::from("Bearer"),
        expires_in,
        refresh_token: refresh.map(String::from),
        scope: scope.map(String::from),
        id_token: Some(String::from("id")),
    }
}

fn config(refresh_scopes: Option<&str>) -> MicrosoftIdentityConfig {
    MicrosoftIdentityConfig {
        tenant: MicrosoftTenant::common(),
        client_id: uuid::Uuid::parse_str("00000000-0000-0000-0000-0000000000ab").unwrap().as_u128(),
        scopes: "openid  offline_access".parse::<Scopes>().unwrap(),
        refresh_scopes: refresh_scopes.map(|s| s.parse::<Scopes>().unwrap()),
        authority_base_url: Url::parse("https://login.microsoftonline.com").unwrap(),
        graph_base_url: Url::parse("https://graph.microsoft.com").unwrap(),
    }
}

#[test]
fn device_code_start_accepts_response() {
    let start = DeviceCodeStart::from_response_at(start_response(Some(10), 900, "https://microsoft.com/devicelogin"), at(100)).unwrap();
    assert_eq!(start.device_code.expose(), "DEVICE-CODE");
    assert_eq!(start.user_code.as_str(), "ABCD-EFGH");
    assert_eq!(&*start.user_code, "ABCD-EFGH");
    assert_eq!(start.verification_uri.as_str(), "https://microsoft.com/devicelogin");
    assert_eq!(start.interval, Duration::from_secs(10));
    assert_eq!(start.message, "Go to the page and enter the code");
    assert_eq!(start.issued_at, at(100));
    assert_eq!(start.expires_in, Duration::from_secs(900));
    assert_eq!(start.expires_at(), at(1000));
}

#[test]
fn device_code_interval_defaults_and_floor() {
    let uri = "https://microsoft.com/devicelogin";
    let none = DeviceCodeStart::from_response_at(start_response(None, 5, uri), at(0)).unwrap();
    assert_eq!(none.interval, Duration::from_secs(5));
    let zero = DeviceCodeStart::from_response_at(start_response(Some(0), 5, uri), at(0)).unwrap();
    assert_eq!(zero.interval, Duration::from_secs(1));
    let one = DeviceCodeStart::from_response_at(start_response(Some(1), 5, uri), at(0)).unwrap();
    assert_eq!(one.interval, Duration::from_secs(1));
}

#[test]
fn device_code_start_errors() {
    let bad = DeviceCodeStart::from_response_at(start_response(None, 0, "relative/path"), at(0));
    assert!(matches!(bad, Err(DeviceCodeStartConversionError::InvalidVerificationUri(UrlParseError::RelativeUrlWithoutBase))));
    let zero = DeviceCodeStart::from_response_at(start_response(None, 0, "https://x.example"), at(0));
    assert!(matches!(zero, Err(DeviceCodeStartConversionError::ZeroExpiresIn)));
    let wrapped = device_code_start_outcome(start_response(None, 0, "https://x.example"), at(0));
    assert!(matches!(wrapped, Err(RequestError::InvalidResponse(DeviceCodeStartConversionError::ZeroExpiresIn))));
    let ok = device_code_start_outcome(start_response(None, 60, "https://x.example"), at(7)).unwrap();
    assert_eq!(ok.issued_at, at(7));
    assert_eq!(ok.verification_uri.as_str(), "https://x.example/");
    let bad = device_code_start_outcome(start_response(None, 0, "https://"), at(0));
    assert!(matches!(bad, Err(RequestError::InvalidResponse(DeviceCodeStartConversionError::InvalidVerificationUri(UrlParseError::EmptyHost)))));
    let now = DeviceCodeStart::try_from(start_response(None, 60, "https://x.example")).unwrap();
    assert!(!now.is_expired());
}

#[test]
fn device_code_expiry_boundaries() {
    let start = DeviceCodeStart::from_response_at(start_response(None, 60, "https://x.example"), at(1000)).unwrap();
    assert!(!start.is_expired_at(at(1059)));
    assert!(start.is_expired_at(at(1060)));
    assert!(!start.is_expired_with_skew_at(at(1049), Duration::from_secs(10)));
    assert!(start.is_expired_with_skew_at(at(1050), Duration::from_secs(10)));
    assert!(start.is_expired_with_skew(Duration::max_value()));
    assert!(start.is_expired());
}

#[test]
fn poll_interval_recommendations() {
    let slow = DeviceCodePollStatus::SlowDown { description: None };
    let pending = DeviceCodePollStatus::Pending { description: Some(String::from("wait")) };
    assert_eq!(slow.recommended_interval_from(Duration::from_secs(5)), Duration::from_secs(10));
    assert_eq!(slow.recommended_interval_from(Duration::new(1, 5)), Duration::new(6, 5));
    assert_eq!(pending.recommended_interval_from(Duration::from_secs(5)), Duration::from_secs(5));
    assert_eq!(slow.recommended_interval_from(Duration::max_value()), Duration::max_value());
    let start = DeviceCodeStart::from_response_at(start_response(Some(7), 60, "https://x.example"), at(0)).unwrap();
    assert_eq!(start.recommended_poll_interval_for(&slow), Duration::from_secs(12));
    assert_eq!(start.recommended_poll_interval_for(&pending), Duration::from_secs(7));
}

#[test]
fn token_set_accepts_response() {
    let t = TokenSet::from_response_at(token_response(Some(3600), Some("refresh"), Some("openid profile")), at(10)).unwrap();
    assert_eq!(t.access_token.expose(), "access");
    assert_eq!(t.token_type, TokenType::Bearer);
    assert_eq!(t.refresh_token.as_ref().map(|r| r.expose().to_owned()), Some(String::from("refresh")));
    assert_eq!(t.scopes.as_ref().map(|s| s.scope_string()), Some(String::from("openid profile")));
    assert_eq!(t.id_token.as_ref().map(|i| i.expose().to_owned()), Some(String::from("id")));
    assert_eq!(t.issued_at, at(10));
    assert_eq!(t.expires_in, Duration::from_secs(3600));
    assert_eq!(t.expires_at(), at(3610));
    assert!(t.is_expired_at(at(3610)));
    assert!(!t.is_expired_at(at(3609)));
    assert!(t.is_expired_with_skew_at(at(3600), Duration::from_secs(10)));
    assert!(t.is_expired());
    let fresh = TokenSet::try_from(token_response(Some(3600), None, None)).unwrap();
    assert!(!fresh.is_expired());
    assert!(!fresh.is_expired_with_skew(Duration::from_secs(60)));
    assert!(fresh.scopes.is_none());
    assert!(fresh.refresh_token.is_none());
}

#[test]
fn token_set_errors() {
    assert_eq!(TokenSet::from_response_at(token_response(None, None, Some("a,b")), at(0)).err(), Some(TokenSetConversionError::MissingExpiresIn));
    assert_eq!(TokenSet::from_response_at(token_response(Some(0), None, Some("a,b")), at(0)).err(), Some(TokenSetConversionError::ZeroExpiresIn));
    assert_eq!(
        TokenSet::from_response_at(token_response(Some(1), None, Some("ok a,b")), at(0)).err(),
        Some(TokenSetConversionError::InvalidScopes(ParseScopesError::InvalidScope {
            index: 1,
            value: String::from("a,b"),
            source: ParseScopeError::ContainsComma,
        }))
    );
    assert_eq!(
        TokenSet::from_response_at(token_response(Some(1), None, Some("  ")), at(0)).err(),
        Some(TokenSetConversionError::InvalidScopes(ParseScopesError::Empty))
    );
}

#[test]
fn refresh_keeps_redeemed_token_when_none_is_issued() {
    let existing = RefreshToken::new(String::from("old"));
    let kept = TokenSet::from_refresh_response_at(token_response(Some(60), None, None), at(0), &existing).unwrap();
    assert_eq!(kept.refresh_token.unwrap().expose(), "old");
    let replaced = TokenSet::from_refresh_response_at(token_response(Some(60), Some("new"), None), at(0), &existing).unwrap();
    assert_eq!(replaced.refresh_token.unwrap().expose(), "new");
    assert_eq!(existing.expose(), "old");
}

#[test]
fn token_types_ignore_ascii_case() {
    assert_eq!(TokenType::from("bearer"), TokenType::Bearer);
    assert_eq!(TokenType::from("BeArEr"), TokenType::Bearer);
    assert_eq!(TokenType::from("DPoP"), TokenType::DPoP);
    assert_eq!(TokenType::from("POP"), TokenType::PoP);
    assert_eq!(TokenType::from("n_a"), TokenType::NotApplicable);
    assert_eq!(TokenType::from("N_A"), TokenType::NotApplicable);
    assert_eq!(TokenType::from("mac"), TokenType::Other(String::from("mac")));
    assert_eq!(TokenType::from("bearer "), TokenType::Other(String::from("bearer ")));
}

#[test]
fn poll_states_from_oauth_errors() {
    let read = |e: &str| {
        DeviceCodePollStatus::try_from(OAuthErrorResponse { error: String::from(e), error_description: Some(String::from("d")) })
    };
    let d = Some(String::from("d"));
    assert_eq!(read("authorization_pending"), Ok(DeviceCodePollStatus::Pending { description: d.clone() }));
    assert_eq!(read("slow_down"), Ok(DeviceCodePollStatus::SlowDown { description: d.clone() }));
    assert_eq!(read("access_denied"), Ok(DeviceCodePollStatus::Declined { description: d.clone() }));
    assert_eq!(read("authorization_declined"), Ok(DeviceCodePollStatus::Declined { description: d.clone() }));
    assert_eq!(read("expired_token"), Ok(DeviceCodePollStatus::Expired { description: d.clone() }));
    assert_eq!(read("bad_verification_code"), Ok(DeviceCodePollStatus::BadVerificationCode { description: d.clone() }));
    let unexpected = read("invalid_grant").unwrap_err();
    assert_eq!(unexpected, UnexpectedDeviceCodePollError { error: String::from("invalid_grant"), description: d.clone() });
    assert!(read("Slow_Down").is_err());
}

#[test]
fn status_classification() {
    assert!(is_success_status(200));
    assert!(is_success_status(299));
    assert!(!is_success_status(199));
    assert!(!is_success_status(300));
    assert_eq!(token_response_kind(204), TokenResponseKind::Success);
    assert_eq!(token_response_kind(400), TokenResponseKind::OAuthError);
    assert_eq!(token_response_kind(401), TokenResponseKind::OAuthError);
    assert_eq!(token_response_kind(403), TokenResponseKind::UnexpectedStatus);
    assert_eq!(token_response_kind(500), TokenResponseKind::UnexpectedStatus);
}

#[test]
fn redeem_outcomes() {
    let ok = redeem_device_code_outcome(TokenEndpointResponse::Success {
        json: token_response(Some(60), Some("r"), None),
        request_timestamp: at(5),
    })
    .unwrap();
    match ok {
        DeviceCodePollOutcome::Authorized(t) => assert_eq!(t.issued_at, at(5)),
        other => panic!("unexpected {:?}", other),
    }
    let bad = redeem_device_code_outcome(TokenEndpointResponse::Success {
        json: token_response(None, None, None),
        request_timestamp: at(5),
    });
    assert!(matches!(bad, Err(RedeemDeviceCodeError::InvalidSuccessResponse(TokenSetConversionError::MissingExpiresIn))));
    let pending = redeem_device_code_outcome(TokenEndpointResponse::OAuthError {
        status: reqwest::StatusCode::BAD_REQUEST,
        body: String::from("{}"),
        error: OAuthErrorResponse { error: String::from("authorization_pending"), error_description: None },
    })
    .unwrap();
    assert!(matches!(pending, DeviceCodePollOutcome::Status(DeviceCodePollStatus::Pending { description: None })));
    let refused = redeem_device_code_outcome(TokenEndpointResponse::OAuthError {
        status: reqwest::StatusCode::UNAUTHORIZED,
        body: String::from("body"),
        error: OAuthErrorResponse { error: String::from("invalid_client"), error_description: Some(String::from("no")) },
    });
    match refused {
        Err(RedeemDeviceCodeError::OAuthError { status, error, description, body }) => {
            assert_eq!(status, reqwest::StatusCode::UNAUTHORIZED);
            assert_eq!(error, "invalid_client");
            assert_eq!(description.as_deref(), Some("no"));
            assert_eq!(body, "body");
        },
        other => panic!("unexpected {:?}", other),
    }
}

#[test]
fn refresh_outcomes() {
    let existing = RefreshToken::new(String::from("kept"));
    let t = refresh_token_outcome(
        TokenEndpointResponse::Success { json: token_response(Some(60), None, None), request_timestamp: at(1) },
        &existing,
    )
    .unwrap();
    assert_eq!(t.refresh_token.unwrap().expose(), "kept");
    let bad = refresh_token_outcome(
        TokenEndpointResponse::Success { json: token_response(Some(0), None, None), request_timestamp: at(1) },
        &existing,
    );
    assert!(matches!(bad, Err(RefreshTokenError::InvalidResponse(TokenSetConversionError::ZeroExpiresIn))));
    let refused = refresh_token_outcome(
        TokenEndpointResponse::OAuthError {
            status: reqwest::StatusCode::BAD_REQUEST,
            body: String::from("b"),
            error: OAuthErrorResponse { error: String::from("authorization_pending"), error_description: None },
        },
        &existing,
    );
    match refused {
        Err(RefreshTokenError::OAuthError { error, description, .. }) => {
            assert_eq!(error, "authorization_pending");
            assert_eq!(description, None);
        },
        other => panic!("unexpected {:?}", other),
    }
}

#[test]
fn client_id_is_sent_hyphenated_in_lower_case() {
    let mut c = config(None);
    c.client_id = uuid::Uuid::parse_str("A1A2A3A4-B1B2-C1C2-D1D2-D3D4D5D6D7D8").unwrap().as_u128();
    let f = device_code_request(&c);
    assert_eq!(f[0], (String::from("client_id"), String::from("a1a2a3a4-b1b2-c1c2-d1d2-d3d4d5d6d7d8")));
    let f = refresh_token_request(&c, &RefreshToken::new(String::from("rt")));
    assert_eq!(f[1].1, "a1a2a3a4-b1b2-c1c2-d1d2-d3d4d5d6d7d8");
}

#[test]
fn request_forms() {
    let c = config(None);
    let f = device_code_request(&c);
    assert_eq!(
        f,
        vec![
            (String::from("client_id"), String::from("00000000-0000-0000-0000-0000000000ab")),
            (String::from("scope"), String::from("openid offline_access")),
        ]
    );
    let code = DeviceCode::new(String::from("dc"));
    let f = device_token_request(&c, &code);
    assert_eq!(f[0], (String::from("grant_type"), String::from("urn:ietf:params:oauth:grant-type:device_code")));
    assert_eq!(f[1].1, "00000000-0000-0000-0000-0000000000ab");
    assert_eq!(f[2], (String::from("device_code"), String::from("dc")));
    let token = RefreshToken::new(String::from("rt"));
    let f = refresh_token_request(&c, &token);
    assert_eq!(f.len(), 3);
    assert_eq!(f[0], (String::from("grant_type"), String::from("refresh_token")));
    assert_eq!(f[2], (String::from("refresh_token"), String::from("rt")));
    let c = config(Some("User.Read  Mail.Read"));
    let f = refresh_token_request(&c, &token);
    assert_eq!(f.len(), 4);
    assert_eq!(f[3], (String::from("scope"), String::from("User.Read Mail.Read")));
}

#[test]
fn error_conversions() {
    let e = RedeemDeviceCodeError::from(TokenEndpointRequestError::UnexpectedStatus {
        status: reqwest::StatusCode::BAD_GATEWAY,
        body: String::from("x"),
    });
    assert!(matches!(e, RedeemDeviceCodeError::UnexpectedStatus { status: reqwest::StatusCode::BAD_GATEWAY, .. }));
    let e = RefreshTokenError::from(TokenEndpointRequestError::Url(UrlParseError::EmptyHost));
    assert!(matches!(e, RefreshTokenError::Url(UrlParseError::EmptyHost)));
    let e = RedeemDeviceCodeError::from(TokenSetConversionError::ZeroExpiresIn);
    assert!(matches!(e, RedeemDeviceCodeError::InvalidSuccessResponse(TokenSetConversionError::ZeroExpiresIn)));
    let e = RedeemDeviceCodeError::from(UnexpectedDeviceCodePollError { error: String::from("x"), description: None });
    assert!(matches!(e, RedeemDeviceCodeError::InvalidPollResponse(_)));
    let e = RefreshTokenError::from(TokenSetConversionError::MissingExpiresIn);
    assert!(matches!(e, RefreshTokenError::InvalidResponse(TokenSetConversionError::MissingExpiresIn)));
}

#[test]
fn secrets_are_redacted_in_debug_output() {
    let token = AccessToken::from(String::from("super-secret"));
    assert_eq!(token.expose(), "super-secret");
    assert!(!format!("{:?}", token).contains("super-secret"));
    let copy = token.clone();
    assert_eq!(copy.expose(), "super-secret");
    let code = UserCode::from("XYZ");
    assert_eq!(code, UserCode::from(String::from("XYZ")));
    assert_eq!(code.to_string(), "XYZ");
    assert_eq!(AsRef::<str>::as_ref(&code), "XYZ");
    assert_eq!(code.len(), 3);
}

#[test]
fn poll_outcome_conversions() {
    let s = DeviceCodePollOutcome::from(DeviceCodePollStatus::Expired { description: None });
    assert!(matches!(s, DeviceCodePollOutcome::Status(DeviceCodePollStatus::Expired { .. })));
    let t = TokenSet::from_response_at(token_response(Some(1), None, None), at(0)).unwrap();
    let a = DeviceCodePollOutcome::from(t);
    assert!(matches!(a, DeviceCodePollOutcome::Authorized(_)));
}

fn some_reqwest_error() -> reqwest::Error {
    reqwest::Client::new().get("relative/path").build().unwrap_err()
}

#[test]
fn post_form_errors_map_to_request_errors() {
    let e = StartDeviceCodeError::from(PostFormError::Send(some_reqwest_error()));
    assert!(matches!(e, RequestError::SendRequest(_)));
    let e = StartDeviceCodeError::from(PostFormError::Read(some_reqwest_error()));
    assert!(matches!(e, RequestError::ReadResponseBody(_)));
    let e = TokenEndpointRequestError::from(PostFormError::Send(some_reqwest_error()));
    assert!(matches!(e, TokenEndpointRequestError::Send(_)));
    let e = TokenEndpointRequestError::from(PostFormError::Read(some_reqwest_error()));
    assert!(matches!(e, TokenEndpointRequestError::Read(_)));
    let e = RedeemDeviceCodeError::from(TokenEndpointRequestError::Read(some_reqwest_error()));
    assert!(matches!(e, RedeemDeviceCodeError::ReadResponseBody(_)));
    let e = RefreshTokenError::from(TokenEndpointRequestError::Send(some_reqwest_error()));
    assert!(matches!(e, RefreshTokenError::SendRequest(_)));
    let e = StartDeviceCodeError::from(UrlParseError::EmptyHost);
    assert!(matches!(e, RequestError::Url(UrlParseError::EmptyHost)));
    let e = TokenEndpointRequestError::from(UrlParseError::InvalidPort);
    assert!(matches!(e, TokenEndpointRequestError::Url(UrlParseError::InvalidPort)));
}
