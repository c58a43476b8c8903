use aws_sso_flow::cache::is_fresh;
use aws_sso_flow::credentials::SessionCredentials;
use aws_sso_flow::oidc::{BearerToken, ClientRegistration};

#[test]
fn client_registration_roundtrips() {
    let a = ClientRegistration {
        client_id: "client-id".to_string(),
        client_secret: "s3cr3t".to_string(),
        secret_expires_at: 1_700_000_000,
    };
    let text = a.render();
    let b = ClientRegistration::parse(&text).expect("rendered record parses");
    assert_eq!(b.client_id, "client-id");
    assert_eq!(b.client_secret, "s3cr3t");
    assert_eq!(b.secret_expires_at, 1_700_000_000);
}

#[test]
fn bearer_token_roundtrips() {
    let a = BearerToken { access_token: "tok/abc+def==".to_string(), expires_at: 42 };
    let text = a.render();
    let b = BearerToken::parse(&text).expect("rendered record parses");
    assert_eq!(b.access_token, "tok/abc+def==");
    assert_eq!(b.expires_at, 42);
}

#[test]
fn session_credentials_roundtrip() {
    let a = SessionCredentials {
        access_key_id: "AKID".to_string(),
        secret_access_key: "SECRET".to_string(),
        session_token: "SESSION".to_string(),
        expires_at: 1_800_000_000,
    };
    let text = a.render();
    let b = SessionCredentials::parse(&text).expect("rendered record parses");
    assert_eq!(b.access_key_id, "AKID");
    assert_eq!(b.secret_access_key, "SECRET");
    assert_eq!(b.session_token, "SESSION");
    assert_eq!(b.expires_at, 1_800_000_000);
}

#[test]
fn fields_that_look_like_framing_still_roundtrip() {
    let a = ClientRegistration {
        client_id: "0000000000000002ab".to_string(),
        client_secret: "\nnewlines\nand = signs # and [headers]".to_string(),
        secret_expires_at: 0,
    };
    let text = a.render();
    let b = ClientRegistration::parse(&text).expect("rendered record parses");
    assert_eq!(b.client_id, a.client_id);
    assert_eq!(b.client_secret, a.client_secret);
    assert_eq!(b.secret_expires_at, 0);
}

#[test]
fn empty_fields_roundtrip() {
    let a = SessionCredentials {
        access_key_id: String::new(),
        secret_access_key: String::new(),
        session_token: String::new(),
        expires_at: 0,
    };
    let b = SessionCredentials::parse(&a.render()).expect("rendered record parses");
    assert_eq!(b.access_key_id, "");
    assert_eq!(b.secret_access_key, "");
    assert_eq!(b.session_token, "");
    assert_eq!(b.expires_at, 0);
}

#[test]
fn extreme_expiry_roundtrips() {
    let a = BearerToken { access_token: "t".to_string(), expires_at: i64::MAX };
    let b = BearerToken::parse(&a.render()).expect("rendered record parses");
    assert_eq!(b.expires_at, i64::MAX);
}

#[test]
fn garbage_does_not_parse() {
    assert!(ClientRegistration::parse("not a cache file").is_none());
    assert!(BearerToken::parse("").is_none());
    assert!(SessionCredentials::parse("0000").is_none());
}

#[test]
fn truncated_record_does_not_parse() {
    let a = BearerToken { access_token: "token".to_string(), expires_at: 7 };
    let mut text = a.render();
    text.pop();
    assert!(BearerToken::parse(&text).is_none());
}

#[test]
fn record_with_trailing_garbage_does_not_parse() {
    let a = BearerToken { access_token: "token".to_string(), expires_at: 7 };
    let mut text = a.render();
    text.push('x');
    assert!(BearerToken::parse(&text).is_none());
}

#[test]
fn wrong_kind_does_not_parse() {
    // A token record has a different chunk count than a client record.
    let token = BearerToken { access_token: "token".to_string(), expires_at: 7 };
    assert!(ClientRegistration::parse(&token.render()).is_none());
}

#[test]
fn redacted_hides_secret_material() {
    let creds = SessionCredentials {
        access_key_id: "AKIDEXAMPLE".to_string(),
        secret_access_key: "SECRETEXAMPLE".to_string(),
        session_token: "SESSIONEXAMPLE".to_string(),
        expires_at: 1_800_000_000,
    };
    let text = creds.redacted();
    assert!(text.contains("AKIDEXAMPLE"));
    assert!(!text.contains("SECRETEXAMPLE"));
    assert!(!text.contains("SESSIONEXAMPLE"));
}

#[test]
fn freshness_respects_the_buffer_boundary() {
    let now = 1_000_000;
    // Exactly one second inside the buffer: expired.
    assert!(!is_fresh(now + 59, now));
    // Exactly at the buffer: still expired.
    assert!(!is_fresh(now + 60, now));
    // One second beyond the buffer: valid.
    assert!(is_fresh(now + 61, now));
    assert!(is_fresh(i64::MAX, now));
    assert!(!is_fresh(0, i64::MAX));
}
