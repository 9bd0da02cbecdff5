use vstd::prelude::*;
use vstd::std_specs::cmp::{PartialEqSpec, PartialEqSpecImpl};
use vstd::std_specs::convert::{FromSpecImpl, TryFromSpecImpl};
use crate::scope::{Scopes, ParseScopesError, scopes_parse_to, scopes_parse_error, scopes_parse_succeeds};
use crate::text::str_eq;
use crate::timing::{Duration, Timestamp, lemma_duration_nonnegative, max_duration_nanos};
use crate::tokens::{AccessToken, DeviceCode, IdToken, RefreshToken, TokenType, UserCode, token_type_for_text};
use crate::url_path::{Url, UrlParseError, url_parse_outcome};

verus! {

/// The poll interval, in seconds, when the device code response names none.
pub const DEFAULT_DEVICE_CODE_INTERVAL_SECS: u64 = 5;

/// The shortest poll interval, in seconds.
pub const MIN_DEVICE_CODE_INTERVAL_SECS: u64 = 1;

/// How much longer to wait, in seconds, after the token endpoint asks to slow down.
pub const DEVICE_CODE_SLOW_DOWN_INCREMENT_SECS: u64 = 5;

/// The texts of an optional value that has a text view.
pub open spec fn opt_text<T: View<V = Seq<char>>>(o: Option<T>) -> Option<Seq<char>> {
    match o {
        Some(t) => Some(t@),
        None => None,
    }
}

/// The device authorization endpoint's successful answer, as it is read from JSON.
#[derive(Debug, Clone)]
pub struct DeviceCodeStartResponse {
    pub device_code: String,
    pub user_code: String,
    pub verification_uri: String,
    pub expires_in: u64,
    pub interval: Option<u64>,
    pub message: String,
}

/// A started device code flow: what to show the user and how to poll.
#[derive(Debug, Clone)]
pub struct DeviceCodeStart {
    pub device_code: DeviceCode,
    pub user_code: UserCode,
    pub verification_uri: Url,
    pub interval: Duration,
    pub message: String,
    pub issued_at: Timestamp,
    pub expires_in: Duration,
}

/// Why a device code response was refused.
#[derive(Debug, Clone, Copy, PartialEq, Eq)]
pub enum DeviceCodeStartConversionError {
    InvalidVerificationUri(UrlParseError),
    ZeroExpiresIn,
}

/// The poll interval, in seconds, that a device code response asks for: the default when it
/// names none, and never below the minimum.
pub open spec fn device_code_interval_secs(interval: Option<u64>) -> u64 {
    let requested = match interval {
        Some(secs) => secs,
        None => DEFAULT_DEVICE_CODE_INTERVAL_SECS,
    };
    if requested < MIN_DEVICE_CODE_INTERVAL_SECS {
        MIN_DEVICE_CODE_INTERVAL_SECS
    } else {
        requested
    }
}

/// Whether `start` is what a device code response `value` issued at `issued_at` gives, with
/// `uri` as the verification URI's parsed text.
pub open spec fn device_code_start_from(
    start: DeviceCodeStart,
    value: DeviceCodeStartResponse,
    uri: Seq<char>,
    issued_at: Timestamp,
) -> bool {
    &&& start.device_code@ == value.device_code@
    &&& start.user_code@ == value.user_code@
    &&& start.verification_uri@ == uri
    &&& start.interval@ == device_code_interval_secs(value.interval) as int * 1_000_000_000
    &&& start.message == value.message
    &&& start.issued_at == issued_at
    &&& start.expires_in@ == value.expires_in as int * 1_000_000_000
}

/// What a device code response issued at `issued_at` gives: the verification URI's parse
/// error, the zero-lifetime error, or the started flow.
pub open spec fn device_code_start_result(
    r: Result<DeviceCodeStart, DeviceCodeStartConversionError>,
    value: DeviceCodeStartResponse,
    issued_at: Timestamp,
) -> bool {
    match url_parse_outcome(value.verification_uri@) {
        Err(e) => r == Err::<DeviceCodeStart, DeviceCodeStartConversionError>(
            DeviceCodeStartConversionError::InvalidVerificationUri(e),
        ),
        Ok(uri) => if value.expires_in == 0 {
            r == Err::<DeviceCodeStart, DeviceCodeStartConversionError>(DeviceCodeStartConversionError::ZeroExpiresIn)
        } else {
            r matches Ok(start) && device_code_start_from(start, value, uri, issued_at)
        },
    }
}

impl DeviceCodeStart {
    /// Accepts a device code response issued at `issued_at`: its verification URI must parse
    /// and its lifetime must not be zero.
    pub fn from_response_at(value: DeviceCodeStartResponse, issued_at: Timestamp) -> (r: Result<Self, DeviceCodeStartConversionError>)
        ensures
            device_code_start_result(r, value, issued_at),
    {
        let verification_uri = match Url::parse(value.verification_uri.as_str()) {
            Ok(uri) => uri,
            Err(e) => {
                return Err(DeviceCodeStartConversionError::InvalidVerificationUri(e));
            },
        };
        if value.expires_in == 0 {
            return Err(DeviceCodeStartConversionError::ZeroExpiresIn);
        }
        let requested = match value.interval {
            Some(secs) => secs,
            None => DEFAULT_DEVICE_CODE_INTERVAL_SECS,
        };
        let interval_secs = if requested < MIN_DEVICE_CODE_INTERVAL_SECS {
            MIN_DEVICE_CODE_INTERVAL_SECS
        } else {
            requested
        };
        Ok(DeviceCodeStart {
            device_code: DeviceCode::new(value.device_code),
            user_code: UserCode::new(value.user_code),
            verification_uri,
            interval: Duration::from_secs(interval_secs),
            message: value.message,
            issued_at,
            expires_in: Duration::from_secs(value.expires_in),
        })
    }
}

impl TryFrom<DeviceCodeStartResponse> for DeviceCodeStart {
    type Error = DeviceCodeStartConversionError;

    /// Accepts a device code response issued now.
    fn try_from(value: DeviceCodeStartResponse) -> (r: Result<Self, Self::Error>)
        ensures
            r matches Ok(start) ==> Timestamp::representable(start.issued_at@),
            device_code_start_result(r, value, match r {
                Ok(start) => start.issued_at,
                Err(_) => arbitrary(),
            }),
    {
        let issued_at = Timestamp::now();
        DeviceCodeStart::from_response_at(value, issued_at)
    }
}

impl TryFromSpecImpl<DeviceCodeStartResponse> for DeviceCodeStart {
    open spec fn obeys_try_from_spec() -> bool {
        false
    }

    open spec fn try_from_spec(value: DeviceCodeStartResponse) -> Result<Self, Self::Error> {
        arbitrary()
    }
}


/// The token endpoint's successful answer, as it is read from JSON.
#[derive(Debug, Clone)]
pub struct TokenSuccessResponse {
    pub access_token: String,
    pub token_type: String,
    pub expires_in: Option<u64>,
    pub refresh_token: Option<String>,
    pub scope: Option<String>,
    pub id_token: Option<String>,
}

/// The tokens that the token endpoint issued.
#[derive(Debug, Clone)]
pub struct TokenSet {
    pub access_token: AccessToken,
    pub token_type: TokenType,
    pub refresh_token: Option<RefreshToken>,
    pub scopes: Option<Scopes>,
    pub id_token: Option<IdToken>,
    pub issued_at: Timestamp,
    pub expires_in: Duration,
}

/// Why a token response was refused.
#[derive(Debug, Clone)]
pub enum TokenSetConversionError {
    MissingExpiresIn,
    ZeroExpiresIn,
    InvalidScopes(ParseScopesError),
}

impl PartialEq for TokenSetConversionError {
    fn eq(&self, other: &Self) -> (r: bool) {
        match (self, other) {
            (TokenSetConversionError::MissingExpiresIn, TokenSetConversionError::MissingExpiresIn) => true,
            (TokenSetConversionError::ZeroExpiresIn, TokenSetConversionError::ZeroExpiresIn) => true,
            (TokenSetConversionError::InvalidScopes(a), TokenSetConversionError::InvalidScopes(b)) => *a == *b,
            _ => false,
        }
    }
}

impl PartialEqSpecImpl for TokenSetConversionError {
    open spec fn obeys_eq_spec() -> bool {
        true
    }

    open spec fn eq_spec(&self, other: &Self) -> bool {
        match (self, other) {
            (TokenSetConversionError::MissingExpiresIn, TokenSetConversionError::MissingExpiresIn) => true,
            (TokenSetConversionError::ZeroExpiresIn, TokenSetConversionError::ZeroExpiresIn) => true,
            (TokenSetConversionError::InvalidScopes(a), TokenSetConversionError::InvalidScopes(b)) => PartialEqSpec::eq_spec(a, b),
            _ => false,
        }
    }
}

impl Eq for TokenSetConversionError {
}

/// The scope texts of an optional scope list.
pub open spec fn opt_scopes(o: Option<Scopes>) -> Option<Seq<Seq<char>>> {
    match o {
        Some(s) => Some(s@),
        None => None,
    }
}

/// The response is refused: with `e` when the tokens cannot be built from it.
pub open spec fn token_response_error(value: TokenSuccessResponse, e: TokenSetConversionError) -> bool {
    match value.expires_in {
        None => e is MissingExpiresIn,
        Some(secs) => if secs == 0 {
            e is ZeroExpiresIn
        } else {
            match value.scope {
                Some(raw) => !scopes_parse_succeeds(raw@) && (e matches TokenSetConversionError::InvalidScopes(pe) && scopes_parse_error(raw@, pe)),
                None => false,
            }
        },
    }
}

/// The response is accepted: its lifetime is given and not zero, and its scope text, if any,
/// parses.
pub open spec fn token_response_accepted(value: TokenSuccessResponse) -> bool {
    &&& value.expires_in matches Some(secs) && secs > 0
    &&& value.scope matches Some(raw) ==> scopes_parse_succeeds(raw@)
}

/// The tokens carry what the response holds, issued at `issued_at`; only the refresh token
/// is left to the caller.
pub open spec fn token_set_from(t: TokenSet, value: TokenSuccessResponse, issued_at: Timestamp) -> bool {
    &&& t.access_token@ == value.access_token@
    &&& t.token_type@ == token_type_for_text(value.token_type@)
    &&& match (opt_scopes(t.scopes), value.scope) {
        (Some(ws), Some(raw)) => scopes_parse_to(raw@, ws),
        (None, None) => true,
        _ => false,
    }
    &&& opt_text(t.id_token) == opt_text(value.id_token)
    &&& t.issued_at == issued_at
    &&& value.expires_in matches Some(secs) && t.expires_in@ == secs as int * 1_000_000_000
}

impl TokenSet {
    /// Accepts a token response issued at `issued_at`.
    pub fn from_response_at(value: TokenSuccessResponse, issued_at: Timestamp) -> (r: Result<Self, TokenSetConversionError>)
        ensures
            r is Ok <==> token_response_accepted(value),
            match r {
                Ok(t) => token_set_from(t, value, issued_at) && opt_text(t.refresh_token) == opt_text(value.refresh_token),
                Err(e) => token_response_error(value, e),
            },
    {
        let expires_in = match value.expires_in {
            Some(secs) => secs,
            None => {
                return Err(TokenSetConversionError::MissingExpiresIn);
            },
        };
        if expires_in == 0 {
            return Err(TokenSetConversionError::ZeroExpiresIn);
        }
        let scopes = match &value.scope {
            Some(raw) => match Scopes::parse(raw.as_str()) {
                Ok(scopes) => Some(scopes),
                Err(e) => {
                    return Err(TokenSetConversionError::InvalidScopes(e));
                },
            },
            None => None,
        };
        let refresh_token = match value.refresh_token {
            Some(t) => Some(RefreshToken::new(t)),
            None => None,
        };
        let id_token = match value.id_token {
            Some(t) => Some(IdToken::new(t)),
            None => None,
        };
        Ok(TokenSet {
            access_token: AccessToken::new(value.access_token),
            token_type: TokenType::from_text(value.token_type.as_str()),
            refresh_token,
            scopes,
            id_token,
            issued_at,
            expires_in: Duration::from_secs(expires_in),
        })
    }

    /// Accepts a token response to a refresh, issued at `issued_at`: when the response names
    /// no refresh token, the one that was redeemed stays in use.
    pub fn from_refresh_response_at(
        value: TokenSuccessResponse,
        issued_at: Timestamp,
        existing_refresh_token: &RefreshToken,
    ) -> (r: Result<Self, TokenSetConversionError>)
        ensures
            r is Ok <==> token_response_accepted(value),
            match r {
                Ok(t) => token_set_from(t, value, issued_at) && opt_text(t.refresh_token) == Some(
                    match value.refresh_token {
                        Some(fresh) => fresh@,
                        None => existing_refresh_token@,
                    },
                ),
                Err(e) => token_response_error(value, e),
            },
    {
        let mut token_set = Self::from_response_at(value, issued_at)?;
        if token_set.refresh_token.is_none() {
            token_set.refresh_token = Some(existing_refresh_token.clone());
        }
        Ok(token_set)
    }
}

impl TryFrom<TokenSuccessResponse> for TokenSet {
    type Error = TokenSetConversionError;

    /// Accepts a token response issued now.
    fn try_from(value: TokenSuccessResponse) -> (r: Result<Self, Self::Error>)
        ensures
            r is Ok <==> token_response_accepted(value),
            match r {
                Ok(t) => token_set_from(t, value, t.issued_at) && opt_text(t.refresh_token) == opt_text(value.refresh_token),
                Err(e) => token_response_error(value, e),
            },
    {
        let issued_at = Timestamp::now();
        TokenSet::from_response_at(value, issued_at)
    }
}

impl TryFromSpecImpl<TokenSuccessResponse> for TokenSet {
    open spec fn obeys_try_from_spec() -> bool {
        false
    }

    open spec fn try_from_spec(value: TokenSuccessResponse) -> Result<Self, Self::Error> {
        arbitrary()
    }
}


/// The token endpoint's error answer, as it is read from JSON.
#[derive(Debug, Clone)]
pub struct OAuthErrorResponse {
    pub error: String,
    pub error_description: Option<String>,
}

/// An error answer to a device code poll that names none of the poll states.
#[derive(Debug, Clone)]
pub struct UnexpectedDeviceCodePollError {
    pub error: String,
    pub description: Option<String>,
}

impl PartialEq for UnexpectedDeviceCodePollError {
    fn eq(&self, other: &Self) -> (r: bool) {
        self.error == other.error && opt_string_eq(&self.description, &other.description)
    }
}

impl PartialEqSpecImpl for UnexpectedDeviceCodePollError {
    open spec fn obeys_eq_spec() -> bool {
        true
    }

    open spec fn eq_spec(&self, other: &Self) -> bool {
        self.error@ == other.error@ && opt_text(self.description) == opt_text(other.description)
    }
}

impl Eq for UnexpectedDeviceCodePollError {
}

/// Whether two optional strings hold the same text.
pub fn opt_string_eq(a: &Option<String>, b: &Option<String>) -> (r: bool)
    ensures
        r == (opt_text(*a) == opt_text(*b)),
{
    match (a, b) {
        (Some(x), Some(y)) => *x == *y,
        (None, None) => true,
        _ => false,
    }
}

/// Where a device code flow stands while the user has not yet signed in.
#[derive(Debug, Clone)]
pub enum DeviceCodePollStatus {
    Pending { description: Option<String> },
    SlowDown { description: Option<String> },
    Declined { description: Option<String> },
    Expired { description: Option<String> },
    BadVerificationCode { description: Option<String> },
}

/// The poll state that an error answer names, keeping its description, or the answer
/// refused as unexpected.
pub open spec fn poll_status_for(value: OAuthErrorResponse) -> Result<DeviceCodePollStatus, UnexpectedDeviceCodePollError> {
    let e = value.error@;
    let d = value.error_description;
    if e == "authorization_pending"@ {
        Ok(DeviceCodePollStatus::Pending { description: d })
    } else if e == "slow_down"@ {
        Ok(DeviceCodePollStatus::SlowDown { description: d })
    } else if e == "access_denied"@ || e == "authorization_declined"@ {
        Ok(DeviceCodePollStatus::Declined { description: d })
    } else if e == "expired_token"@ {
        Ok(DeviceCodePollStatus::Expired { description: d })
    } else if e == "bad_verification_code"@ {
        Ok(DeviceCodePollStatus::BadVerificationCode { description: d })
    } else {
        Err(UnexpectedDeviceCodePollError { error: value.error, description: d })
    }
}

impl DeviceCodePollStatus {
    /// The description that the endpoint gave.
    pub open spec fn description_spec(&self) -> Option<String> {
        match self {
            DeviceCodePollStatus::Pending { description } => *description,
            DeviceCodePollStatus::SlowDown { description } => *description,
            DeviceCodePollStatus::Declined { description } => *description,
            DeviceCodePollStatus::Expired { description } => *description,
            DeviceCodePollStatus::BadVerificationCode { description } => *description,
        }
    }

    /// How long to wait before the next poll: the base interval, lengthened by the slow-down
    /// increment (saturating) when the endpoint asked to slow down.
    pub fn recommended_interval_from(&self, base_interval: Duration) -> (r: Duration)
        ensures
            self is SlowDown ==> r@ == if base_interval@ + DEVICE_CODE_SLOW_DOWN_INCREMENT_SECS as int * 1_000_000_000
                <= max_duration_nanos() {
                base_interval@ + DEVICE_CODE_SLOW_DOWN_INCREMENT_SECS as int * 1_000_000_000
            } else {
                max_duration_nanos()
            },
            !(self is SlowDown) ==> r == base_interval,
            base_interval@ <= r@ <= max_duration_nanos(),
    {
        proof {
            use_type_invariant(&base_interval);
            base_interval.lemma_bounds();
        }
        match self {
            DeviceCodePollStatus::SlowDown { .. } => base_interval.saturating_add(
                Duration::from_secs(DEVICE_CODE_SLOW_DOWN_INCREMENT_SECS),
            ),
            _ => base_interval,
        }
    }
}

impl PartialEq for DeviceCodePollStatus {
    fn eq(&self, other: &Self) -> (r: bool) {
        match (self, other) {
            (DeviceCodePollStatus::Pending { description: a }, DeviceCodePollStatus::Pending { description: b }) => opt_string_eq(a, b),
            (DeviceCodePollStatus::SlowDown { description: a }, DeviceCodePollStatus::SlowDown { description: b }) => opt_string_eq(a, b),
            (DeviceCodePollStatus::Declined { description: a }, DeviceCodePollStatus::Declined { description: b }) => opt_string_eq(a, b),
            (DeviceCodePollStatus::Expired { description: a }, DeviceCodePollStatus::Expired { description: b }) => opt_string_eq(a, b),
            (
                DeviceCodePollStatus::BadVerificationCode { description: a },
                DeviceCodePollStatus::BadVerificationCode { description: b },
            ) => opt_string_eq(a, b),
            _ => false,
        }
    }
}

impl PartialEqSpecImpl for DeviceCodePollStatus {
    open spec fn obeys_eq_spec() -> bool {
        true
    }

    open spec fn eq_spec(&self, other: &Self) -> bool {
        &&& (self is Pending) == (other is Pending)
        &&& (self is SlowDown) == (other is SlowDown)
        &&& (self is Declined) == (other is Declined)
        &&& (self is Expired) == (other is Expired)
        &&& (self is BadVerificationCode) == (other is BadVerificationCode)
        &&& opt_text(self.description_spec()) == opt_text(other.description_spec())
    }
}

impl Eq for DeviceCodePollStatus {
}

impl TryFrom<OAuthErrorResponse> for DeviceCodePollStatus {
    type Error = UnexpectedDeviceCodePollError;

    /// Reads the poll state from an error answer of the token endpoint.
    fn try_from(value: OAuthErrorResponse) -> (r: Result<Self, Self::Error>) {
        let e = value.error.as_str();
        if str_eq(e, "authorization_pending") {
            Ok(DeviceCodePollStatus::Pending { description: value.error_description })
        } else if str_eq(e, "slow_down") {
            Ok(DeviceCodePollStatus::SlowDown { description: value.error_description })
        } else if str_eq(e, "access_denied") || str_eq(e, "authorization_declined") {
            Ok(DeviceCodePollStatus::Declined { description: value.error_description })
        } else if str_eq(e, "expired_token") {
            Ok(DeviceCodePollStatus::Expired { description: value.error_description })
        } else if str_eq(e, "bad_verification_code") {
            Ok(DeviceCodePollStatus::BadVerificationCode { description: value.error_description })
        } else {
            Err(UnexpectedDeviceCodePollError { error: value.error, description: value.error_description })
        }
    }
}

impl TryFromSpecImpl<OAuthErrorResponse> for DeviceCodePollStatus {
    open spec fn obeys_try_from_spec() -> bool {
        true
    }

    open spec fn try_from_spec(value: OAuthErrorResponse) -> Result<Self, Self::Error> {
        poll_status_for(value)
    }
}

/// What a device code poll found: a poll state, or the issued tokens.
#[derive(Debug, Clone)]
pub enum DeviceCodePollOutcome {
    Status(DeviceCodePollStatus),
    Authorized(TokenSet),
}

impl From<TokenSet> for DeviceCodePollOutcome {
    fn from(value: TokenSet) -> Self {
        DeviceCodePollOutcome::Authorized(value)
    }
}

impl FromSpecImpl<TokenSet> for DeviceCodePollOutcome {
    open spec fn obeys_from_spec() -> bool {
        true
    }

    open spec fn from_spec(value: TokenSet) -> Self {
        DeviceCodePollOutcome::Authorized(value)
    }
}

impl From<DeviceCodePollStatus> for DeviceCodePollOutcome {
    fn from(value: DeviceCodePollStatus) -> Self {
        DeviceCodePollOutcome::Status(value)
    }
}

impl FromSpecImpl<DeviceCodePollStatus> for DeviceCodePollOutcome {
    open spec fn obeys_from_spec() -> bool {
        true
    }

    open spec fn from_spec(value: DeviceCodePollStatus) -> Self {
        DeviceCodePollOutcome::Status(value)
    }
}

/// Whether the instant `now`, moved on by `skew`, has reached the end of a lifetime of
/// `expires_in` that began at `issued_at`.
pub open spec fn expired_at(issued_at: Timestamp, expires_in: Duration, now: Timestamp, skew: int) -> bool {
    now@ + skew >= issued_at@ + expires_in@
}

/// Whether the instant `skew` after `now` is at or past `deadline`.
fn reached_with_skew(now: Timestamp, skew: Duration, deadline: Timestamp) -> (r: bool)
    ensures
        r == (now@ + skew@ >= deadline@),
{
    let secs: u64 = skew.as_secs();
    let nanos: u32 = skew.subsec_nanos();
    let start: i128 = now.unix_nanos();
    let end: i128 = deadline.unix_nanos();
    proof {
        vstd::arithmetic::div_mod::lemma_fundamental_div_mod(skew@, 1_000_000_000);
    }
    end - start <= secs as i128 * 1_000_000_000 + nanos as i128
}

impl DeviceCodeStart {
    /// How long to wait before the next poll, given the last poll state.
    pub fn recommended_poll_interval_for(&self, status: &DeviceCodePollStatus) -> (r: Duration)
        ensures
            status is SlowDown ==> r@ == if self.interval@ + DEVICE_CODE_SLOW_DOWN_INCREMENT_SECS as int * 1_000_000_000
                <= max_duration_nanos() {
                self.interval@ + DEVICE_CODE_SLOW_DOWN_INCREMENT_SECS as int * 1_000_000_000
            } else {
                max_duration_nanos()
            },
            !(status is SlowDown) ==> r == self.interval,
            self.interval@ <= r@ <= max_duration_nanos(),
    {
        status.recommended_interval_from(self.interval)
    }

    /// The instant the device code expires.
    pub fn expires_at(&self) -> (r: Timestamp)
        requires
            Timestamp::representable(self.issued_at@ + self.expires_in@),
        ensures
            r@ == self.issued_at@ + self.expires_in@,
    {
        match self.issued_at.checked_add(self.expires_in) {
            Some(t) => t,
            None => self.issued_at,
        }
    }

    /// Whether the device code has expired at `now`.
    pub fn is_expired_at(&self, now: Timestamp) -> (r: bool)
        requires
            Timestamp::representable(self.issued_at@ + self.expires_in@),
        ensures
            r == expired_at(self.issued_at, self.expires_in, now, 0),
    {
        now.unix_nanos() >= self.expires_at().unix_nanos()
    }

    /// Whether the device code will have expired `skew` after `now`.
    pub fn is_expired_with_skew_at(&self, now: Timestamp, skew: Duration) -> (r: bool)
        requires
            Timestamp::representable(self.issued_at@ + self.expires_in@),
            Timestamp::representable(now@ + skew@),
        ensures
            r == expired_at(self.issued_at, self.expires_in, now, skew@),
    {
        reached_with_skew(now, skew, self.expires_at())
    }

    /// Whether the device code has expired now.
    pub fn is_expired(&self) -> (r: bool)
        requires
            Timestamp::representable(self.issued_at@ + self.expires_in@),
        ensures
            exists|now: int| #[trigger] Timestamp::representable(now) && r == (now >= self.issued_at@ + self.expires_in@),
    {
        let now = Timestamp::now();
        let r = self.is_expired_at(now);
        assert(Timestamp::representable(now@) && r == (now@ >= self.issued_at@ + self.expires_in@));
        r
    }

    /// Whether the device code will have expired `skew` from now.
    pub fn is_expired_with_skew(&self, skew: Duration) -> (r: bool)
        requires
            Timestamp::representable(self.issued_at@ + self.expires_in@),
        ensures
            exists|now: int| #[trigger] Timestamp::representable(now) && r == (now + skew@ >= self.issued_at@ + self.expires_in@),
    {
        let now = Timestamp::now();
        proof {
            lemma_duration_nonnegative(skew);
        }
        let r = reached_with_skew(now, skew, self.expires_at());
        assert(Timestamp::representable(now@) && r == (now@ + skew@ >= self.issued_at@ + self.expires_in@));
        r
    }
}

impl TokenSet {
    /// The instant the access token expires.
    pub fn expires_at(&self) -> (r: Timestamp)
        requires
            Timestamp::representable(self.issued_at@ + self.expires_in@),
        ensures
            r@ == self.issued_at@ + self.expires_in@,
    {
        match self.issued_at.checked_add(self.expires_in) {
            Some(t) => t,
            None => self.issued_at,
        }
    }

    /// Whether the access token has expired at `now`.
    pub fn is_expired_at(&self, now: Timestamp) -> (r: bool)
        requires
            Timestamp::representable(self.issued_at@ + self.expires_in@),
        ensures
            r == expired_at(self.issued_at, self.expires_in, now, 0),
    {
        now.unix_nanos() >= self.expires_at().unix_nanos()
    }

    /// Whether the access token will have expired `skew` after `now`.
    pub fn is_expired_with_skew_at(&self, now: Timestamp, skew: Duration) -> (r: bool)
        requires
            Timestamp::representable(self.issued_at@ + self.expires_in@),
            Timestamp::representable(now@ + skew@),
        ensures
            r == expired_at(self.issued_at, self.expires_in, now, skew@),
    {
        reached_with_skew(now, skew, self.expires_at())
    }

    /// Whether the access token has expired now.
    pub fn is_expired(&self) -> (r: bool)
        requires
            Timestamp::representable(self.issued_at@ + self.expires_in@),
        ensures
            exists|now: int| #[trigger] Timestamp::representable(now) && r == (now >= self.issued_at@ + self.expires_in@),
    {
        let now = Timestamp::now();
        let r = self.is_expired_at(now);
        assert(Timestamp::representable(now@) && r == (now@ >= self.issued_at@ + self.expires_in@));
        r
    }

    /// Whether the access token will have expired `skew` from now.
    pub fn is_expired_with_skew(&self, skew: Duration) -> (r: bool)
        requires
            Timestamp::representable(self.issued_at@ + self.expires_in@),
        ensures
            exists|now: int| #[trigger] Timestamp::representable(now) && r == (now + skew@ >= self.issued_at@ + self.expires_in@),
    {
        let now = Timestamp::now();
        proof {
            lemma_duration_nonnegative(skew);
        }
        let r = reached_with_skew(now, skew, self.expires_at());
        assert(Timestamp::representable(now@) && r == (now@ + skew@ >= self.issued_at@ + self.expires_in@));
        r
    }
}


/// The poll interval of a started flow is never below the minimum, and is the default when
/// the response names none.
pub proof fn law_poll_interval_bounds(interval: Option<u64>)
    ensures
        device_code_interval_secs(interval) >= MIN_DEVICE_CODE_INTERVAL_SECS,
        interval is None ==> device_code_interval_secs(interval) == DEFAULT_DEVICE_CODE_INTERVAL_SECS,
        forall|secs: u64| interval == Some(secs) && secs >= MIN_DEVICE_CODE_INTERVAL_SECS ==> device_code_interval_secs(interval) == secs,
{
}

/// Once expired, always expired: a later instant or a longer skew is past expiry too.
pub proof fn law_expiry_is_monotone(
    issued_at: Timestamp,
    expires_in: Duration,
    now: Timestamp,
    later: Timestamp,
    skew: int,
    longer_skew: int,
)
    requires
        expired_at(issued_at, expires_in, now, skew),
        now@ <= later@,
        skew <= longer_skew,
    ensures
        expired_at(issued_at, expires_in, later, longer_skew),
{
}

/// A lifetime runs out exactly at the instant it began plus its length: expiry is reached at
/// that instant and not one nanosecond before.
pub proof fn law_expiry_boundary(issued_at: Timestamp, expires_in: Duration, now: Timestamp)
    ensures
        now@ == issued_at@ + expires_in@ ==> expired_at(issued_at, expires_in, now, 0),
        now@ == issued_at@ + expires_in@ - 1 ==> !expired_at(issued_at, expires_in, now, 0),
{
}

/// An error answer names a poll state exactly when its error code is one of the six poll
/// codes: `authorization_pending` asks to wait, `slow_down` to wait longer, `access_denied`
/// and `authorization_declined` mean the user declined, `expired_token` that the code expired,
/// `bad_verification_code` that the code is unknown. Any other code is refused; the
/// description is kept either way.
pub proof fn law_poll_status_meaning(v: OAuthErrorResponse)
    ensures
        poll_status_for(v) is Ok <==> {
            ||| v.error@ == "authorization_pending"@
            ||| v.error@ == "slow_down"@
            ||| v.error@ == "access_denied"@
            ||| v.error@ == "authorization_declined"@
            ||| v.error@ == "expired_token"@
            ||| v.error@ == "bad_verification_code"@
        },
        (poll_status_for(v) matches Ok(DeviceCodePollStatus::Pending { .. })) <==> v.error@ == "authorization_pending"@,
        (poll_status_for(v) matches Ok(DeviceCodePollStatus::SlowDown { .. })) <==> v.error@ == "slow_down"@,
        (poll_status_for(v) matches Ok(DeviceCodePollStatus::Declined { .. })) <==> (v.error@ == "access_denied"@
            || v.error@ == "authorization_declined"@),
        (poll_status_for(v) matches Ok(DeviceCodePollStatus::Expired { .. })) <==> v.error@ == "expired_token"@,
        (poll_status_for(v) matches Ok(DeviceCodePollStatus::BadVerificationCode { .. })) <==> v.error@
            == "bad_verification_code"@,
        poll_status_for(v) matches Ok(st) ==> st.description_spec() == v.error_description,
        poll_status_for(v) matches Err(u) ==> u.error == v.error && u.description == v.error_description,
{
    reveal_strlit("authorization_pending");
    reveal_strlit("slow_down");
    reveal_strlit("access_denied");
    reveal_strlit("authorization_declined");
    reveal_strlit("expired_token");
    reveal_strlit("bad_verification_code");
    assert("authorization_pending"@.len() == 21 && "slow_down"@.len() == 9 && "access_denied"@.len() == 13);
    assert("authorization_declined"@.len() == 22 && "expired_token"@.len() == 13 && "bad_verification_code"@.len() == 21);
    assert("authorization_pending"@[0] != "bad_verification_code"@[0]);
    assert("access_denied"@[0] != "expired_token"@[0]);
}

}
