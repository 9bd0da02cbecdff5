use vstd::prelude::*;
use vstd::arithmetic::power::pow;
use crate::scope::Scopes;
use crate::tenant::{MicrosoftTenant, tenant_text};
use crate::url_path::{
    Url, UrlParseError, appended_path, appended_path_text, joined_path, joined_path_text, lemma_appended_path_len,
    lemma_joined_path_len, parsed_text, segments_len, url_byte_limit, url_path_after, url_text_after,
};

verus! {

/// The lower-case hexadecimal digit of `d` (0 to 15).
pub open spec fn hex_digit(d: int) -> char {
    seq!['0', '1', '2', '3', '4', '5', '6', '7', '8', '9', 'a', 'b', 'c', 'd', 'e', 'f'][d]
}

/// The 32 lower-case hexadecimal digits of a 128-bit value, most significant first.
pub open spec fn uuid_hex_digits(bits: u128) -> Seq<char> {
    Seq::new(32, |i: int| hex_digit((bits as int / pow(16, (31 - i) as nat)) % 16))
}

/// The hyphenated form of a UUID: its hex digits in groups of 8, 4, 4, 4 and 12.
pub open spec fn uuid_hyphenated(bits: u128) -> Seq<char> {
    let d = uuid_hex_digits(bits);
    d.subrange(0, 8) + seq!['-'] + d.subrange(8, 12) + seq!['-'] + d.subrange(12, 16) + seq!['-']
        + d.subrange(16, 20) + seq!['-'] + d.subrange(20, 32)
}

/// Wraps `uuid::Uuid::from_u128` followed by `to_string`: `Display` for `Uuid` writes the
/// hyphenated lower-case form, with the value's bytes in big-endian order.
#[verifier::external_body]
pub(crate) fn uuid_text(bits: u128) -> (r: String)
    ensures
        r@ == uuid_hyphenated(bits),
{
    uuid::Uuid::from_u128(bits).to_string()
}

/// How to reach the Microsoft identity platform for one application.
#[derive(Debug, Clone)]
pub struct MicrosoftIdentityConfig {
    pub tenant: MicrosoftTenant,
    /// The application (client) id, as the 128-bit value of its UUID.
    pub client_id: u128,
    pub scopes: Scopes,
    /// Optional scopes to send on refresh.
    ///
    /// When omitted, the library lets the provider infer scopes from the
    /// initial grant instead of forcing the configured scope set again.
    pub refresh_scopes: Option<Scopes>,
    pub authority_base_url: Url,
    pub graph_base_url: Url,
}

/// The path of the tenant's OAuth 2.0 authority below a base path.
pub open spec fn authority_path_spec(base_path: Seq<char>, tenant: Seq<char>) -> Seq<char> {
    appended_path(base_path, seq![tenant, "oauth2"@, "v2.0"@])
}

/// The paths set on a base URL (parsed from `source`, with `paths` set on it since) to reach
/// the tenant's authority: its own, then the authority path below its path.
pub open spec fn authority_paths(source: Seq<char>, paths: Seq<Seq<char>>, tenant: Seq<char>) -> Seq<Seq<char>> {
    paths.push(authority_path_spec(url_path_after(source, paths), tenant))
}

/// The paths set on a base URL to reach an endpoint below the tenant's authority: those that
/// reach the authority, then its path with `segment` joined to it.
pub open spec fn endpoint_paths(
    source: Seq<char>,
    paths: Seq<Seq<char>>,
    tenant: Seq<char>,
    segment: Seq<char>,
) -> Seq<Seq<char>> {
    let authority = authority_paths(source, paths, tenant);
    authority.push(joined_path(url_path_after(source, authority), segment))
}

impl MicrosoftIdentityConfig {
    /// Whether the authority path can be set on the base URL within the size of URL that
    /// `url::Url` holds, counted as `Url::set_path` asks.
    pub open spec fn authority_url_fits(&self) -> bool {
        4 * parsed_text(self.authority_base_url.source()).len()
            + 12 * (self.authority_base_url@.len() + tenant_text(self.tenant@).len()) + 176 <= url_byte_limit()
    }

    /// Whether the authority path, and then that path with a segment of `segment_len`
    /// characters joined to it, can be set on the base URL within the size of URL that
    /// `url::Url` holds, counted as `Url::set_path` asks.
    pub open spec fn endpoint_urls_fit(&self, segment_len: int) -> bool {
        16 * parsed_text(self.authority_base_url.source()).len()
            + 144 * (self.authority_base_url@.len() + tenant_text(self.tenant@).len()) + 12 * segment_len + 2100
            <= url_byte_limit()
    }

    /// The authority path below `base_path`: the tenant, then `oauth2`, then `v2.0`.
    pub fn authority_path(&self, base_path: &str) -> (r: String)
        ensures
            r@ == authority_path_spec(base_path@, tenant_text(self.tenant@)),
    {
        let segments = vec![self.tenant.as_str(), "oauth2", "v2.0"];
        let r = appended_path_text(base_path, segments.as_slice());
        assert(segments@.map_values(|s: &str| s@) =~= seq![tenant_text(self.tenant@), "oauth2"@, "v2.0"@]);
        r
    }

    /// The authority path below `base_path`, a path of the base URL, and a bound on its length.
    fn endpoint_path(&self, base_path: &str) -> (r: String)
        requires
            base_path@.len() <= self.authority_base_url@.len(),
        ensures
            r@ == authority_path_spec(base_path@, tenant_text(self.tenant@)),
            r@.len() <= self.authority_base_url@.len() + tenant_text(self.tenant@).len() + 14,
    {
        let path = self.authority_path(base_path);
        proof {
            let segs = seq![tenant_text(self.tenant@), "oauth2"@, "v2.0"@];
            reveal_strlit("oauth2");
            reveal_strlit("v2.0");
            lemma_appended_path_len(base_path@, segs);
            assert(segs.drop_first().drop_first().drop_first() =~= Seq::<Seq<char>>::empty());
            assert(segments_len(segs) == tenant_text(self.tenant@).len() + 13) by {
                assert(segs.drop_first() =~= seq!["oauth2"@, "v2.0"@]);
                assert(segs.drop_first().drop_first() =~= seq!["v2.0"@]);
                assert(segments_len(segs.drop_first().drop_first().drop_first()) == 0);
                assert(segments_len(segs.drop_first().drop_first()) == 5);
                assert(segments_len(segs.drop_first()) == 12);
            }
        }
        path
    }

    /// The tenant's OAuth 2.0 authority: the base URL with the authority path set below its
    /// path. It never fails.
    pub fn authority_url(&self) -> (r: Result<Url, UrlParseError>)
        requires
            self.authority_url_fits(),
        ensures
            r matches Ok(u) && {
                let base = self.authority_base_url;
                &&& u.source() == base.source()
                &&& u.paths() == authority_paths(base.source(), base.paths(), tenant_text(self.tenant@))
                &&& u@ == url_text_after(u.source(), u.paths())
                &&& u@.len() <= parsed_text(base.source()).len() + 12 * (base@.len() + tenant_text(self.tenant@).len() + 14) + 3
            },
    {
        let mut url = self.authority_base_url.clone();
        let base_path = url.path();
        let path = self.endpoint_path(base_path.as_str());
        url.set_path(path.as_str());
        Ok(url)
    }

    /// The authority URL with `segment` joined to its path, after exactly one slash.
    fn join_authority_path(&self, segment: &str) -> (r: Result<Url, UrlParseError>)
        requires
            self.endpoint_urls_fit(segment@.len() as int),
        ensures
            r matches Ok(u) && {
                let base = self.authority_base_url;
                &&& u.source() == base.source()
                &&& u.paths() == endpoint_paths(base.source(), base.paths(), tenant_text(self.tenant@), segment@)
                &&& u@ == url_text_after(u.source(), u.paths())
            },
    {
        let mut url = match self.authority_url() {
            Ok(url) => url,
            Err(e) => {
                return Err(e);
            },
        };
        let authority_path = url.path();
        let path = joined_path_text(authority_path.as_str(), segment);
        proof {
            lemma_joined_path_len(authority_path@, segment@);
        }
        url.set_path(path.as_str());
        Ok(url)
    }

    /// The device authorization endpoint.
    pub fn device_code_url(&self) -> (r: Result<Url, UrlParseError>)
        requires
            self.endpoint_urls_fit(10),
        ensures
            r matches Ok(u) && {
                let base = self.authority_base_url;
                &&& u.source() == base.source()
                &&& u.paths() == endpoint_paths(base.source(), base.paths(), tenant_text(self.tenant@), "devicecode"@)
                &&& u@ == url_text_after(u.source(), u.paths())
            },
    {
        proof {
            reveal_strlit("devicecode");
        }
        self.join_authority_path("devicecode")
    }

    /// The token endpoint.
    pub fn token_url(&self) -> (r: Result<Url, UrlParseError>)
        requires
            self.endpoint_urls_fit(5),
        ensures
            r matches Ok(u) && {
                let base = self.authority_base_url;
                &&& u.source() == base.source()
                &&& u.paths() == endpoint_paths(base.source(), base.paths(), tenant_text(self.tenant@), "token"@)
                &&& u@ == url_text_after(u.source(), u.paths())
            },
    {
        proof {
            reveal_strlit("token");
        }
        self.join_authority_path("token")
    }
}

}
