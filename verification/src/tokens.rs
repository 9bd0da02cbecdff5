use vstd::prelude::*;
use vstd::std_specs::cmp::PartialEqSpecImpl;
use vstd::std_specs::convert::FromSpecImpl;
use crate::secret::{SecretText, secret_chars, secret_from_string, secret_expose, secret_clone};
use crate::text::{ascii_lower_code, eq_ignore_ascii_case, eq_ignore_ascii_case_spec};

verus! {

/// An access token for the APIs that the scopes grant.
#[derive(Debug)]
pub struct AccessToken(SecretText);

impl View for AccessToken {
    type V = Seq<char>;

    closed spec fn view(&self) -> Seq<char> {
        secret_chars(self.0)
    }
}

impl AccessToken {
    /// Keeps `value` as a secret.
    pub fn new(value: String) -> (r: Self)
        ensures
            r@ == value@,
    {
        AccessToken(secret_from_string(value))
    }

    /// The secret's text.
    pub fn expose(&self) -> (r: &str)
        ensures
            r@ == self@,
    {
        secret_expose(&self.0)
    }
}

impl Clone for AccessToken {
    fn clone(&self) -> (r: Self)
        ensures
            r@ == self@,
    {
        AccessToken(secret_clone(&self.0))
    }
}

impl From<String> for AccessToken {
    fn from(value: String) -> (r: Self)
        ensures
            r@ == value@,
    {
        Self::new(value)
    }
}

impl FromSpecImpl<String> for AccessToken {
    open spec fn obeys_from_spec() -> bool {
        false
    }

    open spec fn from_spec(value: String) -> Self {
        arbitrary()
    }
}

/// A refresh token, exchanged for new tokens at the token endpoint.
#[derive(Debug)]
pub struct RefreshToken(SecretText);

impl View for RefreshToken {
    type V = Seq<char>;

    closed spec fn view(&self) -> Seq<char> {
        secret_chars(self.0)
    }
}

impl RefreshToken {
    /// Keeps `value` as a secret.
    pub fn new(value: String) -> (r: Self)
        ensures
            r@ == value@,
    {
        RefreshToken(secret_from_string(value))
    }

    /// The secret's text.
    pub fn expose(&self) -> (r: &str)
        ensures
            r@ == self@,
    {
        secret_expose(&self.0)
    }
}

impl Clone for RefreshToken {
    fn clone(&self) -> (r: Self)
        ensures
            r@ == self@,
    {
        RefreshToken(secret_clone(&self.0))
    }
}

impl From<String> for RefreshToken {
    fn from(value: String) -> (r: Self)
        ensures
            r@ == value@,
    {
        Self::new(value)
    }
}

impl FromSpecImpl<String> for RefreshToken {
    open spec fn obeys_from_spec() -> bool {
        false
    }

    open spec fn from_spec(value: String) -> Self {
        arbitrary()
    }
}

/// An OpenID Connect ID token.
#[derive(Debug)]
pub struct IdToken(SecretText);

impl View for IdToken {
    type V = Seq<char>;

    closed spec fn view(&self) -> Seq<char> {
        secret_chars(self.0)
    }
}

impl IdToken {
    /// Keeps `value` as a secret.
    pub fn new(value: String) -> (r: Self)
        ensures
            r@ == value@,
    {
        IdToken(secret_from_string(value))
    }

    /// The secret's text.
    pub fn expose(&self) -> (r: &str)
        ensures
            r@ == self@,
    {
        secret_expose(&self.0)
    }
}

impl Clone for IdToken {
    fn clone(&self) -> (r: Self)
        ensures
            r@ == self@,
    {
        IdToken(secret_clone(&self.0))
    }
}

impl From<String> for IdToken {
    fn from(value: String) -> (r: Self)
        ensures
            r@ == value@,
    {
        Self::new(value)
    }
}

impl FromSpecImpl<String> for IdToken {
    open spec fn obeys_from_spec() -> bool {
        false
    }

    open spec fn from_spec(value: String) -> Self {
        arbitrary()
    }
}

/// The device code that a device redeems at the token endpoint.
#[derive(Debug)]
pub struct DeviceCode(SecretText);

impl View for DeviceCode {
    type V = Seq<char>;

    closed spec fn view(&self) -> Seq<char> {
        secret_chars(self.0)
    }
}

impl DeviceCode {
    /// Keeps `value` as a secret.
    pub fn new(value: String) -> (r: Self)
        ensures
            r@ == value@,
    {
        DeviceCode(secret_from_string(value))
    }

    /// The secret's text.
    pub fn expose(&self) -> (r: &str)
        ensures
            r@ == self@,
    {
        secret_expose(&self.0)
    }
}

impl Clone for DeviceCode {
    fn clone(&self) -> (r: Self)
        ensures
            r@ == self@,
    {
        DeviceCode(secret_clone(&self.0))
    }
}

impl From<String> for DeviceCode {
    fn from(value: String) -> (r: Self)
        ensures
            r@ == value@,
    {
        Self::new(value)
    }
}

impl FromSpecImpl<String> for DeviceCode {
    open spec fn obeys_from_spec() -> bool {
        false
    }

    open spec fn from_spec(value: String) -> Self {
        arbitrary()
    }
}

/// The code that the user enters at the verification page.
#[derive(Debug, Hash)]
pub struct UserCode(String);

impl View for UserCode {
    type V = Seq<char>;

    closed spec fn view(&self) -> Seq<char> {
        self.0@
    }
}

impl UserCode {
    /// A user code with the given text.
    pub fn new(value: String) -> (r: Self)
        ensures
            r@ == value@,
    {
        UserCode(value)
    }

    /// The code's text.
    pub fn as_str(&self) -> (r: &str)
        ensures
            r@ == self@,
    {
        self.0.as_str()
    }

    /// The code's text as an owned string.
    pub fn to_string(&self) -> (r: String)
        ensures
            r@ == self@,
    {
        self.0.clone()
    }
}

impl Clone for UserCode {
    fn clone(&self) -> (r: Self)
        ensures
            r@ == self@,
    {
        UserCode(self.0.clone())
    }
}

impl PartialEq for UserCode {
    fn eq(&self, other: &Self) -> (r: bool) {
        self.0 == other.0
    }
}

impl PartialEqSpecImpl for UserCode {
    open spec fn obeys_eq_spec() -> bool {
        true
    }

    open spec fn eq_spec(&self, other: &Self) -> bool {
        self@ == other@
    }
}

impl Eq for UserCode {
}

impl From<String> for UserCode {
    fn from(value: String) -> (r: Self)
        ensures
            r@ == value@,
    {
        Self::new(value)
    }
}

impl FromSpecImpl<String> for UserCode {
    open spec fn obeys_from_spec() -> bool {
        false
    }

    open spec fn from_spec(value: String) -> Self {
        arbitrary()
    }
}

impl AsRef<str> for UserCode {
    fn as_ref(&self) -> (r: &str)
        ensures
            r@ == self@,
    {
        self.as_str()
    }
}

impl std::ops::Deref for UserCode {
    type Target = str;

    fn deref(&self) -> (r: &str)
        ensures
            r@ == self@,
    {
        self.as_str()
    }
}

impl<'a> From<&'a str> for UserCode {
    fn from(value: &'a str) -> (r: Self)
        ensures
            r@ == value@,
    {
        Self::new(value.to_owned())
    }
}

impl<'a> FromSpecImpl<&'a str> for UserCode {
    open spec fn obeys_from_spec() -> bool {
        false
    }

    open spec fn from_spec(value: &'a str) -> Self {
        arbitrary()
    }
}

/// What a token type names.
pub enum TokenTypeView {
    Bearer,
    DPoP,
    PoP,
    NotApplicable,
    Other(Seq<char>),
}

/// The type of an issued access token.
#[derive(Debug)]
pub enum TokenType {
    Bearer,
    DPoP,
    PoP,
    NotApplicable,
    Other(String),
}

impl View for TokenType {
    type V = TokenTypeView;

    open spec fn view(&self) -> TokenTypeView {
        match self {
            TokenType::Bearer => TokenTypeView::Bearer,
            TokenType::DPoP => TokenTypeView::DPoP,
            TokenType::PoP => TokenTypeView::PoP,
            TokenType::NotApplicable => TokenTypeView::NotApplicable,
            TokenType::Other(s) => TokenTypeView::Other(s@),
        }
    }
}

/// The token type that a `token_type` text names: the known names in any ASCII case, else
/// the text itself.
pub open spec fn token_type_for_text(s: Seq<char>) -> TokenTypeView {
    if eq_ignore_ascii_case_spec(s, "bearer"@) {
        TokenTypeView::Bearer
    } else if eq_ignore_ascii_case_spec(s, "dpop"@) {
        TokenTypeView::DPoP
    } else if eq_ignore_ascii_case_spec(s, "pop"@) {
        TokenTypeView::PoP
    } else if eq_ignore_ascii_case_spec(s, "n_a"@) {
        TokenTypeView::NotApplicable
    } else {
        TokenTypeView::Other(s)
    }
}

impl TokenType {
    /// The token type that `s` names.
    pub fn from_text(s: &str) -> (r: Self)
        ensures
            r@ == token_type_for_text(s@),
    {
        if eq_ignore_ascii_case(s, "bearer") {
            TokenType::Bearer
        } else if eq_ignore_ascii_case(s, "dpop") {
            TokenType::DPoP
        } else if eq_ignore_ascii_case(s, "pop") {
            TokenType::PoP
        } else if eq_ignore_ascii_case(s, "n_a") {
            TokenType::NotApplicable
        } else {
            TokenType::Other(s.to_owned())
        }
    }
}

impl Clone for TokenType {
    fn clone(&self) -> (r: Self)
        ensures
            r@ == self@,
    {
        match self {
            TokenType::Bearer => TokenType::Bearer,
            TokenType::DPoP => TokenType::DPoP,
            TokenType::PoP => TokenType::PoP,
            TokenType::NotApplicable => TokenType::NotApplicable,
            TokenType::Other(s) => TokenType::Other(s.clone()),
        }
    }
}

impl PartialEq for TokenType {
    fn eq(&self, other: &Self) -> (r: bool) {
        match (self, other) {
            (TokenType::Bearer, TokenType::Bearer) => true,
            (TokenType::DPoP, TokenType::DPoP) => true,
            (TokenType::PoP, TokenType::PoP) => true,
            (TokenType::NotApplicable, TokenType::NotApplicable) => true,
            (TokenType::Other(a), TokenType::Other(b)) => *a == *b,
            _ => false,
        }
    }
}

impl PartialEqSpecImpl for TokenType {
    open spec fn obeys_eq_spec() -> bool {
        true
    }

    open spec fn eq_spec(&self, other: &Self) -> bool {
        self@ == other@
    }
}

impl Eq for TokenType {
}

impl<'a> From<&'a str> for TokenType {
    fn from(s: &'a str) -> (r: Self)
        ensures
            r@ == token_type_for_text(s@),
    {
        Self::from_text(s)
    }
}

impl<'a> FromSpecImpl<&'a str> for TokenType {
    open spec fn obeys_from_spec() -> bool {
        false
    }

    open spec fn from_spec(s: &'a str) -> Self {
        arbitrary()
    }
}

/// A token type text names a known type exactly when it is that name up to ASCII case; any
/// other text is kept as it is.
pub proof fn law_token_type_meaning(s: Seq<char>)
    ensures
        eq_ignore_ascii_case_spec(s, "bearer"@) ==> token_type_for_text(s) == TokenTypeView::Bearer,
        eq_ignore_ascii_case_spec(s, "dpop"@) ==> token_type_for_text(s) == TokenTypeView::DPoP,
        eq_ignore_ascii_case_spec(s, "pop"@) ==> token_type_for_text(s) == TokenTypeView::PoP,
        eq_ignore_ascii_case_spec(s, "n_a"@) ==> token_type_for_text(s) == TokenTypeView::NotApplicable,
        token_type_for_text(s) is Other ==> {
            &&& token_type_for_text(s) == TokenTypeView::Other(s)
            &&& !eq_ignore_ascii_case_spec(s, "bearer"@)
            &&& !eq_ignore_ascii_case_spec(s, "dpop"@)
            &&& !eq_ignore_ascii_case_spec(s, "pop"@)
            &&& !eq_ignore_ascii_case_spec(s, "n_a"@)
        },
{
    reveal_strlit("bearer");
    reveal_strlit("dpop");
    reveal_strlit("pop");
    reveal_strlit("n_a");
    assert("bearer"@.len() == 6 && "dpop"@.len() == 4 && "pop"@.len() == 3 && "n_a"@.len() == 3);
    if eq_ignore_ascii_case_spec(s, "n_a"@) && eq_ignore_ascii_case_spec(s, "pop"@) {
        assert(ascii_lower_code(s[0]) == ascii_lower_code("n_a"@[0]));
        assert(ascii_lower_code(s[0]) == ascii_lower_code("pop"@[0]));
        assert("n_a"@[0] == 'n' && "pop"@[0] == 'p');
    }
}

}
