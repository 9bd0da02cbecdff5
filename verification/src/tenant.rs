use vstd::prelude::*;
use vstd::std_specs::cmp::PartialEqSpecImpl;
use vstd::std_specs::convert::TryFromSpecImpl;
use crate::text::{lemma_trim_without_white_space, trim, eq_ignore_ascii_case, eq_ignore_ascii_case_spec, is_white_space, trim_str, to_chars, has_white_space, any_white_space, contains_char};

verus! {

/// Why a tenant identifier was refused.
#[derive(Debug, Clone, Copy, PartialEq, Eq, Structural)]
pub enum ParseMicrosoftTenantError {
    Empty,
    ContainsWhitespace,
    ContainsPathSeparator,
    ContainsReservedUrlCharacters,
    ReservedDotSegment,
}

/// The checks a tenant identifier must pass, in the order they are made: on success the
/// trimmed identifier, else the first check that failed.
pub open spec fn normalized_tenant_identifier(s: Seq<char>) -> Result<Seq<char>, ParseMicrosoftTenantError> {
    let t = trim(s);
    if t.len() == 0 {
        Err(ParseMicrosoftTenantError::Empty)
    } else if has_white_space(t) {
        Err(ParseMicrosoftTenantError::ContainsWhitespace)
    } else if t.contains('/') || t.contains('\\') {
        Err(ParseMicrosoftTenantError::ContainsPathSeparator)
    } else if t.contains('?') || t.contains('#') || t.contains('%') {
        Err(ParseMicrosoftTenantError::ContainsReservedUrlCharacters)
    } else if t == seq!['.'] || t == seq!['.', '.'] {
        Err(ParseMicrosoftTenantError::ReservedDotSegment)
    } else {
        Ok(t)
    }
}

/// Whether `s` is an identifier that the checks accept unchanged.
pub open spec fn is_normalized_identifier(s: Seq<char>) -> bool {
    normalized_tenant_identifier(s) == Ok::<Seq<char>, ParseMicrosoftTenantError>(s)
}

/// Trims `s` and checks that it can stand as a tenant identifier.
pub fn normalize_tenant_identifier(s: &str) -> (r: Result<String, ParseMicrosoftTenantError>)
    ensures
        match r {
            Ok(v) => normalized_tenant_identifier(s@) == Ok::<Seq<char>, ParseMicrosoftTenantError>(v@),
            Err(e) => normalized_tenant_identifier(s@) == Err::<Seq<char>, ParseMicrosoftTenantError>(e),
        },
{
    let s = trim_str(s);
    let v = to_chars(s);
    if v.len() == 0 {
        return Err(ParseMicrosoftTenantError::Empty);
    }
    if any_white_space(&v) {
        return Err(ParseMicrosoftTenantError::ContainsWhitespace);
    }
    if contains_char(&v, '/') || contains_char(&v, '\\') {
        return Err(ParseMicrosoftTenantError::ContainsPathSeparator);
    }
    if contains_char(&v, '?') || contains_char(&v, '#') || contains_char(&v, '%') {
        return Err(ParseMicrosoftTenantError::ContainsReservedUrlCharacters);
    }
    if (v.len() == 1 && v[0] == '.') || (v.len() == 2 && v[0] == '.' && v[1] == '.') {
        assert(v@ =~= seq!['.'] || v@ =~= seq!['.', '.']);
        return Err(ParseMicrosoftTenantError::ReservedDotSegment);
    }
    assert(v@ != seq!['.']) by {
        if v@ == seq!['.'] {
            assert(v@.len() == 1 && v@[0] == '.');
        }
    }
    assert(v@ != seq!['.', '.']) by {
        if v@ == seq!['.', '.'] {
            assert(v@.len() == 2 && v@[0] == '.' && v@[1] == '.');
        }
    }
    Ok(s.to_owned())
}


/// What a tenant stands for.
pub enum TenantView {
    Common,
    Organizations,
    Consumers,
    Identifier(Seq<char>),
}

/// The text of a tenant, as it appears in endpoint paths.
pub open spec fn tenant_text(t: TenantView) -> Seq<char> {
    match t {
        TenantView::Common => "common"@,
        TenantView::Organizations => "organizations"@,
        TenantView::Consumers => "consumers"@,
        TenantView::Identifier(v) => v,
    }
}

/// A tenant is well formed when an identifier passes the identifier checks unchanged.
pub open spec fn tenant_view_wf(t: TenantView) -> bool {
    t matches TenantView::Identifier(v) ==> is_normalized_identifier(v)
}

/// The tenant that `text` names once parsed: the three well-known names in any ASCII case,
/// else an identifier.
pub open spec fn tenant_for_text(t: Seq<char>) -> TenantView {
    if eq_ignore_ascii_case_spec(t, "common"@) {
        TenantView::Common
    } else if eq_ignore_ascii_case_spec(t, "organizations"@) {
        TenantView::Organizations
    } else if eq_ignore_ascii_case_spec(t, "consumers"@) {
        TenantView::Consumers
    } else {
        TenantView::Identifier(t)
    }
}

/// What parsing `s` as a tenant gives.
pub open spec fn parse_tenant_spec(s: Seq<char>) -> Result<TenantView, ParseMicrosoftTenantError> {
    match normalized_tenant_identifier(s) {
        Ok(t) => Ok(tenant_for_text(t)),
        Err(e) => Err(e),
    }
}

#[derive(Debug)]
enum MicrosoftTenantKind {
    Common,
    Organizations,
    Consumers,
    Identifier(String),
}

/// A Microsoft identity platform tenant.
#[derive(Debug)]
pub struct MicrosoftTenant(MicrosoftTenantKind);

impl View for MicrosoftTenant {
    type V = TenantView;

    closed spec fn view(&self) -> TenantView {
        match self.0 {
            MicrosoftTenantKind::Common => TenantView::Common,
            MicrosoftTenantKind::Organizations => TenantView::Organizations,
            MicrosoftTenantKind::Consumers => TenantView::Consumers,
            MicrosoftTenantKind::Identifier(v) => TenantView::Identifier(v@),
        }
    }
}

impl MicrosoftTenant {
    #[verifier::type_invariant]
    closed spec fn inv(self) -> bool {
        tenant_view_wf(self@)
    }

    /// The tenant for work, school and personal accounts.
    pub fn common() -> (r: Self)
        ensures
            r@ == TenantView::Common,
    {
        MicrosoftTenant(MicrosoftTenantKind::Common)
    }

    /// The tenant for work and school accounts.
    pub fn organizations() -> (r: Self)
        ensures
            r@ == TenantView::Organizations,
    {
        MicrosoftTenant(MicrosoftTenantKind::Organizations)
    }

    /// The tenant for personal accounts.
    pub fn consumers() -> (r: Self)
        ensures
            r@ == TenantView::Consumers,
    {
        MicrosoftTenant(MicrosoftTenantKind::Consumers)
    }

    /// A tenant named by its identifier (a GUID or a domain), kept as an identifier even
    /// when it spells a well-known name.
    pub fn identifier(value: &str) -> (r: Result<Self, ParseMicrosoftTenantError>)
        ensures
            match r {
                Ok(t) => normalized_tenant_identifier(value@) matches Ok(v) && t@ == TenantView::Identifier(v),
                Err(e) => normalized_tenant_identifier(value@) == Err::<Seq<char>, ParseMicrosoftTenantError>(e),
            },
    {
        let value = normalize_tenant_identifier(value)?;
        proof {
            lemma_normalized_is_fixed_point(value@);
        }
        Ok(MicrosoftTenant(MicrosoftTenantKind::Identifier(value)))
    }

    /// Parses a tenant: the well-known names in any ASCII case, else an identifier.
    pub fn parse(s: &str) -> (r: Result<Self, ParseMicrosoftTenantError>)
        ensures
            match r {
                Ok(t) => parse_tenant_spec(s@) == Ok::<TenantView, ParseMicrosoftTenantError>(t@),
                Err(e) => parse_tenant_spec(s@) == Err::<TenantView, ParseMicrosoftTenantError>(e),
            },
    {
        let s = normalize_tenant_identifier(s)?;
        if eq_ignore_ascii_case(s.as_str(), "common") {
            Ok(Self::common())
        } else if eq_ignore_ascii_case(s.as_str(), "organizations") {
            Ok(Self::organizations())
        } else if eq_ignore_ascii_case(s.as_str(), "consumers") {
            Ok(Self::consumers())
        } else {
            proof {
                lemma_normalized_is_fixed_point(s@);
            }
            Ok(MicrosoftTenant(MicrosoftTenantKind::Identifier(s)))
        }
    }

    /// The tenant's text.
    pub fn as_str(&self) -> (r: &str)
        ensures
            r@ == tenant_text(self@),
            tenant_view_wf(self@),
    {
        proof {
            use_type_invariant(self);
        }
        match &self.0 {
            MicrosoftTenantKind::Common => "common",
            MicrosoftTenantKind::Organizations => "organizations",
            MicrosoftTenantKind::Consumers => "consumers",
            MicrosoftTenantKind::Identifier(value) => value.as_str(),
        }
    }

    /// Whether the tenant is given by an identifier rather than a well-known name.
    pub fn is_identifier(&self) -> (r: bool)
        ensures
            r == (self@ is Identifier),
    {
        match &self.0 {
            MicrosoftTenantKind::Identifier(_) => true,
            _ => false,
        }
    }

    /// The tenant's text as an owned string.
    pub fn to_string(&self) -> (r: String)
        ensures
            r@ == tenant_text(self@),
    {
        self.as_str().to_owned()
    }
}

impl Clone for MicrosoftTenant {
    fn clone(&self) -> (r: Self)
        ensures
            r@ == self@,
    {
        proof {
            use_type_invariant(self);
        }
        match &self.0 {
            MicrosoftTenantKind::Common => MicrosoftTenant(MicrosoftTenantKind::Common),
            MicrosoftTenantKind::Organizations => MicrosoftTenant(MicrosoftTenantKind::Organizations),
            MicrosoftTenantKind::Consumers => MicrosoftTenant(MicrosoftTenantKind::Consumers),
            MicrosoftTenantKind::Identifier(v) => MicrosoftTenant(MicrosoftTenantKind::Identifier(v.clone())),
        }
    }
}

impl PartialEq for MicrosoftTenant {
    fn eq(&self, other: &Self) -> (r: bool) {
        match (&self.0, &other.0) {
            (MicrosoftTenantKind::Common, MicrosoftTenantKind::Common) => true,
            (MicrosoftTenantKind::Organizations, MicrosoftTenantKind::Organizations) => true,
            (MicrosoftTenantKind::Consumers, MicrosoftTenantKind::Consumers) => true,
            (MicrosoftTenantKind::Identifier(a), MicrosoftTenantKind::Identifier(b)) => *a == *b,
            _ => false,
        }
    }
}

impl PartialEqSpecImpl for MicrosoftTenant {
    open spec fn obeys_eq_spec() -> bool {
        true
    }

    open spec fn eq_spec(&self, other: &Self) -> bool {
        self@ == other@
    }
}

impl Eq for MicrosoftTenant {
}

impl AsRef<str> for MicrosoftTenant {
    fn as_ref(&self) -> (r: &str)
        ensures
            r@ == tenant_text(self@),
    {
        self.as_str()
    }
}

impl std::str::FromStr for MicrosoftTenant {
    type Err = ParseMicrosoftTenantError;

    fn from_str(s: &str) -> (r: Result<Self, Self::Err>)
        ensures
            match r {
                Ok(t) => parse_tenant_spec(s@) == Ok::<TenantView, ParseMicrosoftTenantError>(t@),
                Err(e) => parse_tenant_spec(s@) == Err::<TenantView, ParseMicrosoftTenantError>(e),
            },
    {
        Self::parse(s)
    }
}

impl<'a> TryFrom<&'a str> for MicrosoftTenant {
    type Error = ParseMicrosoftTenantError;

    fn try_from(value: &'a str) -> (r: Result<Self, Self::Error>)
        ensures
            match r {
                Ok(t) => parse_tenant_spec(value@) == Ok::<TenantView, ParseMicrosoftTenantError>(t@),
                Err(e) => parse_tenant_spec(value@) == Err::<TenantView, ParseMicrosoftTenantError>(e),
            },
    {
        Self::parse(value)
    }
}

impl<'a> TryFromSpecImpl<&'a str> for MicrosoftTenant {
    open spec fn obeys_try_from_spec() -> bool {
        false
    }

    open spec fn try_from_spec(value: &'a str) -> Result<Self, Self::Error> {
        arbitrary()
    }
}

impl TryFrom<String> for MicrosoftTenant {
    type Error = ParseMicrosoftTenantError;

    fn try_from(value: String) -> (r: Result<Self, Self::Error>)
        ensures
            match r {
                Ok(t) => parse_tenant_spec(value@) == Ok::<TenantView, ParseMicrosoftTenantError>(t@),
                Err(e) => parse_tenant_spec(value@) == Err::<TenantView, ParseMicrosoftTenantError>(e),
            },
    {
        Self::parse(value.as_str())
    }
}

/// An accepted identifier passes the checks again unchanged.
pub proof fn lemma_normalized_is_fixed_point(t: Seq<char>)
    requires
        exists|s: Seq<char>| normalized_tenant_identifier(s) == Ok::<Seq<char>, ParseMicrosoftTenantError>(t),
    ensures
        is_normalized_identifier(t),
{
    let s = choose|s: Seq<char>| normalized_tenant_identifier(s) == Ok::<Seq<char>, ParseMicrosoftTenantError>(t);
    assert(t == trim(s));
    lemma_trim_without_white_space(t);
}



impl TryFromSpecImpl<String> for MicrosoftTenant {
    open spec fn obeys_try_from_spec() -> bool {
        false
    }

    open spec fn try_from_spec(value: String) -> Result<Self, Self::Error> {
        arbitrary()
    }
}


/// A well-known name passes the identifier checks unchanged.
proof fn lemma_well_known_name(t: Seq<char>)
    requires
        t.len() > 0,
        forall|i: int| 0 <= i < t.len() ==> 'a' <= #[trigger] t[i] <= 'z',
    ensures
        is_normalized_identifier(t),
        eq_ignore_ascii_case_spec(t, t),
{
    assert(!has_white_space(t)) by {
        assert forall|i: int| 0 <= i < t.len() implies !is_white_space(#[trigger] t[i]) by {
            assert('a' <= t[i] <= 'z');
        }
    }
    lemma_trim_without_white_space(t);
    assert(!t.contains('/') && !t.contains('\\') && !t.contains('?') && !t.contains('#') && !t.contains('%')) by {
        if t.contains('/') {
            let k = choose|k: int| 0 <= k < t.len() && t[k] == '/';
            assert('a' <= t[k] <= 'z');
        }
        if t.contains('\\') {
            let k = choose|k: int| 0 <= k < t.len() && t[k] == '\\';
            assert('a' <= t[k] <= 'z');
        }
        if t.contains('?') {
            let k = choose|k: int| 0 <= k < t.len() && t[k] == '?';
            assert('a' <= t[k] <= 'z');
        }
        if t.contains('#') {
            let k = choose|k: int| 0 <= k < t.len() && t[k] == '#';
            assert('a' <= t[k] <= 'z');
        }
        if t.contains('%') {
            let k = choose|k: int| 0 <= k < t.len() && t[k] == '%';
            assert('a' <= t[k] <= 'z');
        }
    }
    assert(t != seq!['.']) by {
        if t == seq!['.'] {
            assert('a' <= t[0] <= 'z');
        }
    }
    assert(t != seq!['.', '.']) by {
        if t == seq!['.', '.'] {
            assert('a' <= t[0] <= 'z');
        }
    }
}

/// Parsing the text of a well-formed tenant succeeds; it gives back the same tenant, except
/// that an identifier spelling a well-known name in some ASCII case parses as that name.
pub proof fn law_tenant_text_parses_back(t: TenantView)
    requires
        tenant_view_wf(t),
    ensures
        parse_tenant_spec(tenant_text(t)) == Ok::<TenantView, ParseMicrosoftTenantError>(tenant_for_text(tenant_text(t))),
        !(t is Identifier) ==> tenant_for_text(tenant_text(t)) == t,
        t matches TenantView::Identifier(v) ==> (tenant_for_text(v) == t || !(tenant_for_text(v) is Identifier)),
{
    reveal_strlit("common");
    reveal_strlit("organizations");
    reveal_strlit("consumers");
    match t {
        TenantView::Common => {
            lemma_well_known_name("common"@);
        },
        TenantView::Organizations => {
            lemma_well_known_name("organizations"@);
            assert(!eq_ignore_ascii_case_spec("organizations"@, "common"@));
        },
        TenantView::Consumers => {
            lemma_well_known_name("consumers"@);
            assert(!eq_ignore_ascii_case_spec("consumers"@, "common"@));
            assert(!eq_ignore_ascii_case_spec("consumers"@, "organizations"@));
        },
        TenantView::Identifier(v) => {
        },
    }
}

/// A text names a well-known tenant only when it is that name up to ASCII case, and always
/// does then; any other text is an identifier that keeps the text as it is.
pub proof fn law_tenant_for_text_meaning(t: Seq<char>)
    ensures
        tenant_for_text(t) is Identifier ==> tenant_for_text(t) == TenantView::Identifier(t),
        !(tenant_for_text(t) is Identifier) ==> eq_ignore_ascii_case_spec(t, tenant_text(tenant_for_text(t))),
        eq_ignore_ascii_case_spec(t, "common"@) ==> tenant_for_text(t) == TenantView::Common,
        eq_ignore_ascii_case_spec(t, "organizations"@) ==> tenant_for_text(t) == TenantView::Organizations,
        eq_ignore_ascii_case_spec(t, "consumers"@) ==> tenant_for_text(t) == TenantView::Consumers,
{
    reveal_strlit("common");
    reveal_strlit("organizations");
    reveal_strlit("consumers");
}

/// A parsed tenant is the trimmed text: the well-known tenant it names up to ASCII case, or
/// else an identifier holding exactly that text.
pub proof fn law_parse_tenant_meaning(s: Seq<char>)
    ensures
        parse_tenant_spec(s) matches Ok(v) ==> {
            &&& v is Identifier ==> tenant_text(v) == trim(s)
            &&& !(v is Identifier) ==> eq_ignore_ascii_case_spec(trim(s), tenant_text(v))
        },
{
    law_tenant_for_text_meaning(trim(s));
}

}
