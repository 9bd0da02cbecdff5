use ms_identity_auth::scope::{ParseScopeError, ParseScopesError, Scope, Scopes};
use ms_identity_auth::tenant::{MicrosoftTenant, ParseMicrosoftTenantError};

#[test]
fn tenant_well_known_names_parse_in_any_case() {
    let t: MicrosoftTenant = "  CoMmOn ".parse().unwrap();
    assert_eq!(t, MicrosoftTenant::common());
    assert_eq!(t.as_str(), "common");
    assert!(!t.is_identifier());
    let o: MicrosoftTenant = "ORGANIZATIONS".parse().unwrap();
    assert_eq!(o, MicrosoftTenant::organizations());
    let c: MicrosoftTenant = "consumers".parse().unwrap();
    assert_eq!(c, MicrosoftTenant::consumers());
    assert_eq!(c.to_string(), "consumers");
}

#[test]
fn tenant_identifier_is_trimmed_and_kept() {
    let t: MicrosoftTenant = "\u{3000} contoso.onmicrosoft.com\u{a0}\n".parse().unwrap();
    assert!(t.is_identifier());
    assert_eq!(t.as_str(), "contoso.onmicrosoft.com");
    assert_eq!(AsRef::<str>::as_ref(&t), "contoso.onmicrosoft.com");
}

#[test]
fn tenant_errors_follow_check_order() {
    let cases: Vec<(&str, ParseMicrosoftTenantError)> = vec![
        ("", ParseMicrosoftTenantError::Empty),
        (" \t\u{2003} ", ParseMicrosoftTenantError::Empty),
        ("a b", ParseMicrosoftTenantError::ContainsWhitespace),
        ("ten\u{2003}ant", ParseMicrosoftTenantError::ContainsWhitespace),
        ("a b/c", ParseMicrosoftTenantError::ContainsWhitespace),
        ("a/b", ParseMicrosoftTenantError::ContainsPathSeparator),
        ("a\\b", ParseMicrosoftTenantError::ContainsPathSeparator),
        ("a/b?", ParseMicrosoftTenantError::ContainsPathSeparator),
        ("a?b", ParseMicrosoftTenantError::ContainsReservedUrlCharacters),
        ("a#b", ParseMicrosoftTenantError::ContainsReservedUrlCharacters),
        ("a%b", ParseMicrosoftTenantError::ContainsReservedUrlCharacters),
        (".", ParseMicrosoftTenantError::ReservedDotSegment),
        (" .. ", ParseMicrosoftTenantError::ReservedDotSegment),
    ];
    for (input, expected) in cases {
        assert_eq!(input.parse::<MicrosoftTenant>(), Err(expected), "input {:?}", input);
        assert_eq!(MicrosoftTenant::identifier(input), Err(expected), "input {:?}", input);
    }
    assert!("...".parse::<MicrosoftTenant>().is_ok());
}

#[test]
fn tenant_identifier_constructor_keeps_well_known_spelling() {
    let t = MicrosoftTenant::identifier(" Common ").unwrap();
    assert!(t.is_identifier());
    assert_eq!(t.as_str(), "Common");
    assert_ne!(t, MicrosoftTenant::common());
}

#[test]
fn tenant_try_from_matches_parse() {
    assert_eq!(MicrosoftTenant::try_from("common"), Ok(MicrosoftTenant::common()));
    assert_eq!(
        MicrosoftTenant::try_from(String::from("tenant-id")).map(|t| t.as_str().to_owned()),
        Ok(String::from("tenant-id"))
    );
    assert_eq!(MicrosoftTenant::try_from("a/b"), Err(ParseMicrosoftTenantError::ContainsPathSeparator));
}

#[test]
fn tenant_text_parses_back() {
    let tenants = vec![
        MicrosoftTenant::common(),
        MicrosoftTenant::organizations(),
        MicrosoftTenant::consumers(),
        MicrosoftTenant::identifier("72f988bf-86f1-41af-91ab-2d7cd011db47").unwrap(),
        MicrosoftTenant::identifier("contoso.com").unwrap(),
    ];
    for t in tenants {
        let again: MicrosoftTenant = t.as_str().parse().unwrap();
        assert_eq!(again, t);
        assert_eq!(again.clone(), t);
    }
    let spelled = MicrosoftTenant::identifier("CONSUMERS").unwrap();
    let again: MicrosoftTenant = spelled.as_str().parse().unwrap();
    assert_eq!(again, MicrosoftTenant::consumers());
}

#[test]
fn scope_parse_checks_in_order() {
    let s: Scope = "  User.Read ".parse().unwrap();
    assert_eq!(s.as_str(), "User.Read");
    assert_eq!(s.to_string(), "User.Read");
    assert_eq!(String::from(s.clone()), "User.Read");
    assert_eq!("".parse::<Scope>(), Err(ParseScopeError::Empty));
    assert_eq!(" \u{85} ".parse::<Scope>(), Err(ParseScopeError::Empty));
    assert_eq!("a b".parse::<Scope>(), Err(ParseScopeError::ContainsWhitespace));
    assert_eq!("a b,c".parse::<Scope>(), Err(ParseScopeError::ContainsWhitespace));
    assert_eq!("a,b".parse::<Scope>(), Err(ParseScopeError::ContainsComma));
}

#[test]
fn scopes_split_at_any_white_space() {
    let scopes: Scopes = " openid\tprofile \n offline_access\u{2028}User.Read ".parse().unwrap();
    let texts: Vec<&str> = scopes.as_slice().iter().map(|s| s.as_str()).collect();
    assert_eq!(texts, vec!["openid", "profile", "offline_access", "User.Read"]);
    assert_eq!(scopes.scope_string(), "openid profile offline_access User.Read");
    assert_eq!(scopes.to_string(), "openid profile offline_access User.Read");
    let owned: Vec<String> = scopes.clone().into_vec().into_iter().map(String::from).collect();
    assert_eq!(owned, vec!["openid", "profile", "offline_access", "User.Read"]);
}

#[test]
fn scopes_errors() {
    assert_eq!("".parse::<Scopes>(), Err(ParseScopesError::Empty));
    assert_eq!(" \t\n ".parse::<Scopes>(), Err(ParseScopesError::Empty));
    assert_eq!(
        "openid a,b c,d".parse::<Scopes>(),
        Err(ParseScopesError::InvalidScope {
            index: 1,
            value: String::from("a,b"),
            source: ParseScopeError::ContainsComma,
        })
    );
}

#[test]
fn scope_string_parses_back() {
    for text in ["openid", "openid profile", "  a,\u{3000}b ".split(',').nth(1).unwrap(), "x y z w"] {
        let scopes: Scopes = text.parse().unwrap();
        let again: Scopes = scopes.scope_string().parse().unwrap();
        assert_eq!(again, scopes);
    }
}

#[test]
fn scope_string_shape() {
    for text in ["openid", "  openid \t profile\n\nUser.Read  ", "a\u{3000}b c"] {
        let scopes: Scopes = text.parse().unwrap();
        let s = scopes.scope_string();
        assert!(!s.is_empty());
        assert!(!s.starts_with(' ') && !s.ends_with(' '));
        assert!(!s.contains("  "));
        assert_eq!(s.split(' ').count(), scopes.as_slice().len());
    }
}
