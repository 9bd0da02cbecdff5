use ms_identity_auth::config::MicrosoftIdentityConfig;
use ms_identity_auth::scope::Scopes;
use ms_identity_auth::tenant::MicrosoftTenant;
use ms_identity_auth::timing::{Duration, Timestamp};
use ms_identity_auth::url_path::{appended_path_text, joined_path_text, Url, UrlParseError};

fn config(base: &str, tenant: MicrosoftTenant) -> MicrosoftIdentityConfig {
    MicrosoftIdentityConfig {
        tenant,
        client_id: uuid::Uuid::parse_str("00000000-0000-0000-0000-000000000001").unwrap().as_u128(),
        scopes: "openid offline_access".parse::<Scopes>().unwrap(),
        refresh_scopes: None,
        authority_base_url: Url::parse(base).unwrap(),
        graph_base_url: Url::parse("https://graph.microsoft.com").unwrap(),
    }
}

#[test]
fn appended_path_rules() {
    assert_eq!(appended_path_text("", &["a", "b"]), "/a/b");
    assert_eq!(appended_path_text("/", &[]), "/");
    assert_eq!(appended_path_text("", &[]), "/");
    assert_eq!(appended_path_text("/base///", &["x"]), "/base/x");
    assert_eq!(appended_path_text("/base", &["", "x", ""]), "/base/x");
    assert_eq!(appended_path_text("/base", &["x/", "y"]), "/base/x/y");
    assert_eq!(appended_path_text("/", &["common", "oauth2", "v2.0"]), "/common/oauth2/v2.0");
}

#[test]
fn appended_path_ignores_trailing_slash() {
    for base in ["", "/p", "/p/q"] {
        let with = format!("{}/", base);
        assert_eq!(appended_path_text(&with, &["s", "t"]), appended_path_text(base, &["s", "t"]));
    }
}

#[test]
fn joined_path_puts_one_slash() {
    assert_eq!(joined_path_text("/common/oauth2/v2.0", "token"), "/common/oauth2/v2.0/token");
    assert_eq!(joined_path_text("/a//", "devicecode"), "/a/devicecode");
    assert_eq!(joined_path_text("", "token"), "/token");
    assert_eq!(joined_path_text("///", ""), "/");
}

#[test]
fn endpoint_urls() {
    let c = config("https://login.microsoftonline.com", MicrosoftTenant::common());
    assert_eq!(c.authority_url().unwrap().as_str(), "https://login.microsoftonline.com/common/oauth2/v2.0");
    assert_eq!(c.device_code_url().unwrap().as_str(), "https://login.microsoftonline.com/common/oauth2/v2.0/devicecode");
    assert_eq!(c.token_url().unwrap().as_str(), "https://login.microsoftonline.com/common/oauth2/v2.0/token");
    let c = config("https://login.example.com/prefix/", MicrosoftTenant::identifier("contoso.com").unwrap());
    assert_eq!(c.token_url().unwrap().as_str(), "https://login.example.com/prefix/contoso.com/oauth2/v2.0/token");
    assert_eq!(c.authority_path("/x/"), "/x/contoso.com/oauth2/v2.0");
    let copy = c.clone();
    assert_eq!(copy.authority_base_url.as_str(), c.authority_base_url.as_str());
}

#[test]
fn duration_arithmetic() {
    let d = Duration::from_secs(7);
    assert_eq!(d.as_secs(), 7);
    assert_eq!(d.subsec_nanos(), 0);
    let n = Duration::new(1, 2_500_000_000);
    assert_eq!((n.as_secs(), n.subsec_nanos()), (3, 500_000_000));
    let s = Duration::new(1, 600_000_000).saturating_add(Duration::new(2, 700_000_000));
    assert_eq!((s.as_secs(), s.subsec_nanos()), (4, 300_000_000));
    let max = Duration::max_value();
    assert_eq!(max.saturating_add(Duration::from_secs(5)), max);
    assert_eq!(Duration::from_secs(u64::MAX).saturating_add(Duration::new(0, 999_999_999)), max);
    assert_eq!(Duration::from_secs(u64::MAX).saturating_add(Duration::new(1, 0)), max);
}

#[test]
fn timestamps_stay_within_offset_date_time_range() {
    let epoch = Timestamp::from_unix_nanos(0).unwrap();
    assert_eq!(epoch.unix_nanos(), 0);
    let last = 253_402_300_799_999_999_999i128;
    assert!(Timestamp::from_unix_nanos(last).is_some());
    assert!(Timestamp::from_unix_nanos(last + 1).is_none());
    let first = -377_705_116_800_000_000_000i128;
    assert!(Timestamp::from_unix_nanos(first).is_some());
    assert!(Timestamp::from_unix_nanos(first - 1).is_none());
    let later = epoch.checked_add(Duration::new(90, 5)).unwrap();
    assert_eq!(later.unix_nanos(), 90_000_000_005);
    let near_end = Timestamp::from_unix_nanos(last - 1_000_000_000).unwrap();
    assert!(near_end.checked_add(Duration::from_secs(2)).is_none());
    let now = Timestamp::now();
    assert!(now.unix_nanos() > 1_600_000_000_000_000_000);
}

#[test]
fn url_parse_and_path() {
    let u = Url::parse("HTTPS://Example.COM").unwrap();
    assert_eq!(u.as_str(), "https://example.com/");
    assert_eq!(u.path(), "/");
    let mut v = Url::parse("https://example.com/api?q=1#top").unwrap();
    assert_eq!(v.path(), "/api");
    v.set_path("data/report csv");
    assert_eq!(v.as_str(), "https://example.com/data/report%20csv?q=1#top");
    assert_eq!(v.clone().as_str(), v.as_str());
    v.set_path("/again");
    assert_eq!(v.as_str(), "https://example.com/again?q=1#top");
    assert_eq!(v.path(), "/again");
    assert_eq!(v.source_text(), "https://example.com/api?q=1#top");
    let mut opaque = Url::parse("foo:bar").unwrap();
    opaque.set_path("x ");
    assert_eq!(opaque.as_str(), "foo:x ");
    assert_eq!(opaque.path(), "x ");
    assert_eq!(Url::parse("relative/path").unwrap_err(), UrlParseError::RelativeUrlWithoutBase);
    assert_eq!(Url::parse("https://").unwrap_err(), UrlParseError::EmptyHost);
    assert_eq!(Url::parse("https://example.com:99999").unwrap_err(), UrlParseError::InvalidPort);
    assert_eq!(Url::parse("https://[::1").unwrap_err(), UrlParseError::InvalidIpv6Address);
}

#[test]
fn endpoint_urls_below_base_path() {
    let c = config("https://login.example.com/base/", MicrosoftTenant::identifier("contoso.onmicrosoft.com").unwrap());
    assert_eq!(
        c.device_code_url().unwrap().as_str(),
        "https://login.example.com/base/contoso.onmicrosoft.com/oauth2/v2.0/devicecode"
    );
    assert_eq!(c.authority_url().unwrap().as_str(), "https://login.example.com/base/contoso.onmicrosoft.com/oauth2/v2.0");
    let c = config("https://login.microsoftonline.com/", MicrosoftTenant::organizations());
    assert_eq!(c.device_code_url().unwrap().as_str(), "https://login.microsoftonline.com/organizations/oauth2/v2.0/devicecode");
}
