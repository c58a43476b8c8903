use aws_sso_flow::cache::{fingerprint, Cache};
use aws_sso_flow::{Region, SsoConfig};

fn cfg(region: &str, start_url: &str, account_id: &str, role_name: &str) -> SsoConfig {
    SsoConfig {
        region: Region::new(region.to_string()),
        start_url: start_url.to_string(),
        account_id: account_id.to_string(),
        role_name: role_name.to_string(),
    }
}

fn base() -> SsoConfig {
    cfg("eu-west-1", "https://myorg.awsapps.com/start", "012345678910", "PowerUser")
}

#[test]
fn fingerprint_is_deterministic() {
    assert_eq!(fingerprint(&base()), fingerprint(&base()));
}

#[test]
fn fingerprint_separates_region() {
    let other = cfg("us-east-1", "https://myorg.awsapps.com/start", "012345678910", "PowerUser");
    assert_ne!(fingerprint(&base()), fingerprint(&other));
}

#[test]
fn fingerprint_separates_start_url() {
    let other = cfg("eu-west-1", "https://other.awsapps.com/start", "012345678910", "PowerUser");
    assert_ne!(fingerprint(&base()), fingerprint(&other));
}

#[test]
fn fingerprint_separates_account_id() {
    let other = cfg("eu-west-1", "https://myorg.awsapps.com/start", "012345678911", "PowerUser");
    assert_ne!(fingerprint(&base()), fingerprint(&other));
}

#[test]
fn fingerprint_separates_role_name() {
    let other = cfg("eu-west-1", "https://myorg.awsapps.com/start", "012345678910", "ReadOnly");
    assert_ne!(fingerprint(&base()), fingerprint(&other));
}

#[test]
fn fingerprint_separates_field_boundaries() {
    // The same characters split differently across fields must not collide.
    let a = cfg("ab", "c", "d", "e");
    let b = cfg("a", "bc", "d", "e");
    assert_ne!(fingerprint(&a), fingerprint(&b));
}

#[test]
fn fingerprint_is_32_lowercase_hex() {
    let fp = fingerprint(&base());
    assert_eq!(fp.len(), 32);
    assert!(fp.chars().all(|c| c.is_ascii_hexdigit() && !c.is_ascii_uppercase()));
}

#[test]
fn artifact_kinds_never_collide_in_storage() {
    let config = base();
    let cache = Cache::new(Some("/tmp/cache".to_string()), &config);
    let client = cache.file_name("client");
    let token = cache.file_name("token");
    let credentials = cache.file_name("credentials");
    assert_ne!(client, token);
    assert_ne!(client, credentials);
    assert_ne!(token, credentials);
    let fp = fingerprint(&config);
    assert_eq!(client, format!("client-{fp}.json"));
    assert_eq!(token, format!("token-{fp}.json"));
    assert_eq!(credentials, format!("credentials-{fp}.json"));
}
