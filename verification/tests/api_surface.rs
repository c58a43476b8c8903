use aws_sso_flow::credentials::SessionCredentials;
use aws_sso_flow::oidc::{BearerToken, ClientRegistration};
use aws_sso_flow::oidc::{validate_start_device_authorization, StartDeviceAuthorizationWire};
use aws_sso_flow::profile::{locate_config_file, EnvValue, SsoProfileError};
use aws_sso_flow::{
    Action, Event, Region, SsoApiError, SsoCacheError, SsoConfig, SsoError, SsoFlow, SsoFlowError,
};

fn config() -> SsoConfig {
    SsoConfig {
        region: Region::new("eu-west-1".to_string()),
        start_url: "https://myorg.awsapps.com/start".to_string(),
        account_id: "012345678910".to_string(),
        role_name: "PowerUser".to_string(),
    }
}

#[test]
fn verification_url_is_normalized_not_echoed() {
    // The URL handed to the prompt is the parsed URL's text, not the raw
    // response bytes: scheme and host are lowercased, the default port
    // dropped.
    let wire = StartDeviceAuthorizationWire {
        device_code: Some("dev".to_string()),
        user_code: Some("usr".to_string()),
        verification_uri_complete: Some("HTTPS://Device.SSO.Example:443/Activate".to_string()),
        interval: 1,
        expires_in: 60,
    };
    let challenge = validate_start_device_authorization(wire).unwrap();
    assert_eq!(challenge.verification_url, "https://device.sso.example/Activate");
}

#[test]
fn explicit_config_file_bypasses_the_home_lookup() {
    let r = locate_config_file(EnvValue::Present("/etc/aws.conf".to_string()));
    assert_eq!(r.ok().as_deref(), Some("/etc/aws.conf"));
}

#[test]
fn expiry_accessors_report_the_record_expiry() {
    let client = ClientRegistration {
        client_id: "c".to_string(),
        client_secret: "s".to_string(),
        secret_expires_at: 11,
    };
    assert_eq!(client.expires_at(), 11);
    let token = BearerToken { access_token: "t".to_string(), expires_at: 22 };
    assert_eq!(token.expires_at(), 22);
    let creds = SessionCredentials {
        access_key_id: "k".to_string(),
        secret_access_key: "sk".to_string(),
        session_token: "st".to_string(),
        expires_at: 33,
    };
    assert_eq!(creds.expires_at(), 33);
}

#[test]
fn step_now_transitions_like_step_for_clock_free_events() {
    let flow = SsoFlow::build(None, config());
    let (flow, action): (SsoFlow, Action<String>) = flow.start();
    assert!(matches!(action, Action::CallRegisterClient { .. }));
    // A registration response's handling does not depend on the clock.
    let wire = aws_sso_flow::oidc::RegisterClientWire {
        client_id: Some("cid".to_string()),
        client_secret: Some("cs".to_string()),
        client_secret_expires_at: 1,
    };
    let (_, action) = flow.step_now(Event::<String>::Registered(Ok(wire)));
    assert!(matches!(action, Action::CallStartDeviceAuthorization { .. }));
}

#[test]
fn error_wrappers_carry_their_messages() {
    let api = SsoApiError::new("remote said no".to_string());
    assert_eq!(api.message(), "remote said no");
    let cache = SsoCacheError::new("cache trouble".to_string());
    assert_eq!(cache.message(), "cache trouble");
    let config_err: SsoError<String> =
        SsoError::Config(SsoProfileError::new("no profile".to_string()));
    assert!(matches!(config_err, SsoError::Config(ref e) if e.message() == "no profile"));
    let flow_err: SsoError<String> = SsoError::Flow(SsoFlowError::VerificationPromptTimeout);
    assert!(matches!(flow_err, SsoError::Flow(SsoFlowError::VerificationPromptTimeout)));
}

#[test]
fn flow_builder_starts_with_defaults() {
    let b = SsoFlow::builder();
    assert!(b.cache_dir.is_none());
}
