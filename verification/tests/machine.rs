use aws_sso_flow::cache::fingerprint;
use aws_sso_flow::credentials::{RoleCredentialsFields, RoleCredentialsWire, SessionCredentials};
use aws_sso_flow::oidc::{
    BearerToken, ClientRegistration, CreateTokenWire, PollOutcome, RegisterClientWire,
    StartDeviceAuthorizationWire,
};
use aws_sso_flow::{Action, Event, Region, SsoConfig, SsoFlow, SsoFlowError};

const NOW: i64 = 1_000_000;

fn config() -> SsoConfig {
    SsoConfig {
        region: Region::new("eu-west-1".to_string()),
        start_url: "https://myorg.awsapps.com/start".to_string(),
        account_id: "012345678910".to_string(),
        role_name: "PowerUser".to_string(),
    }
}

fn register_wire() -> RegisterClientWire {
    RegisterClientWire {
        client_id: Some("cid".to_string()),
        client_secret: Some("csecret".to_string()),
        client_secret_expires_at: NOW + 86_400,
    }
}

fn device_auth_wire() -> StartDeviceAuthorizationWire {
    StartDeviceAuthorizationWire {
        device_code: Some("devcode".to_string()),
        user_code: Some("USR-CODE".to_string()),
        verification_uri_complete: Some("https://device.sso.example/?user_code=USR-CODE".to_string()),
        interval: 5,
        expires_in: 600,
    }
}

fn creds_wire() -> RoleCredentialsWire {
    RoleCredentialsWire {
        role_credentials: Some(RoleCredentialsFields {
            access_key_id: Some("AKID".to_string()),
            secret_access_key: Some("SECRET".to_string()),
            session_token: Some("SESSION".to_string()),
            expiration: 1_800_000_000_000,
        }),
    }
}

/// Drives an uncached flow to the polling stage and returns it.
fn flow_at_polling() -> SsoFlow {
    let flow = SsoFlow::build(None, config());
    let (flow, action): (SsoFlow, Action<String>) = flow.start();
    assert!(matches!(action, Action::CallRegisterClient { ref client_name } if client_name == "aws-sso-flow@0.1"));
    let (flow, action) = flow.step(Event::<String>::Registered(Ok(register_wire())), NOW);
    match &action {
        Action::CallStartDeviceAuthorization { client_id, client_secret, start_url } => {
            assert_eq!(client_id, "cid");
            assert_eq!(client_secret, "csecret");
            assert_eq!(start_url, "https://myorg.awsapps.com/start");
        }
        other => panic!("unexpected action: {:?}", action_name(other)),
    }
    let (flow, action) = flow.step(Event::<String>::AuthorizationStarted(Ok(device_auth_wire())), NOW);
    match &action {
        Action::Prompt { verification_url } => {
            assert_eq!(verification_url, "https://device.sso.example/?user_code=USR-CODE");
        }
        other => panic!("unexpected action: {:?}", action_name(other)),
    }
    let (flow, action) = flow.step(Event::<String>::Prompted(Ok(())), NOW);
    assert!(matches!(action, Action::CallCreateToken { ref device_code, ref user_code, .. }
        if device_code == "devcode" && user_code == "USR-CODE"));
    flow
}

fn action_name(a: &Action<String>) -> &'static str {
    match a {
        Action::ReadCache { .. } => "ReadCache",
        Action::CallRegisterClient { .. } => "CallRegisterClient",
        Action::CallStartDeviceAuthorization { .. } => "CallStartDeviceAuthorization",
        Action::Prompt { .. } => "Prompt",
        Action::CallCreateToken { .. } => "CallCreateToken",
        Action::CallGetRoleCredentials { .. } => "CallGetRoleCredentials",
        Action::Sleep { .. } => "Sleep",
        Action::WriteCache { .. } => "WriteCache",
        Action::Finish(_) => "Finish",
    }
}

#[test]
fn pending_three_times_then_success_takes_four_attempts() {
    let mut flow = flow_at_polling();
    let mut attempts: usize = 1;
    for _ in 0..3 {
        let (f, action) = flow.step(Event::<String>::Polled(PollOutcome::AuthorizationPending), NOW);
        assert!(matches!(action, Action::Sleep { seconds: 5 }));
        let (f, action) = f.step(Event::<String>::Slept, NOW);
        assert!(matches!(action, Action::CallCreateToken { .. }));
        attempts += 1;
        flow = f;
    }
    let token_wire = CreateTokenWire { access_token: Some("tok".to_string()), expires_in: 3600 };
    let (flow, action) = flow.step(Event::<String>::Polled(PollOutcome::Token(token_wire)), NOW);
    assert_eq!(attempts, 4);
    assert!(matches!(action, Action::CallGetRoleCredentials { ref access_token, .. } if access_token == "tok"));
    let (flow, action) = flow.step(Event::<String>::CredentialsFetched(Ok(creds_wire())), NOW);
    match action {
        Action::Finish(Ok(creds)) => {
            assert_eq!(creds.access_key_id, "AKID");
            assert_eq!(creds.secret_access_key, "SECRET");
            assert_eq!(creds.session_token, "SESSION");
            assert_eq!(creds.expires_at, 1_800_000_000);
        }
        other => panic!("unexpected action: {}", action_name(&other)),
    }
    assert!(flow.is_finished());
}

#[test]
fn expired_challenge_times_out_without_retry() {
    let flow = flow_at_polling();
    let (flow, action) = flow.step(Event::<String>::Polled(PollOutcome::ExpiredChallenge), NOW);
    assert!(matches!(action, Action::Finish(Err(SsoFlowError::VerificationPromptTimeout))));
    assert!(flow.is_finished());
}

#[test]
fn prompt_failure_short_circuits_polling() {
    let flow = SsoFlow::build(None, config());
    let (flow, _): (SsoFlow, Action<String>) = flow.start();
    let (flow, _) = flow.step(Event::<String>::Registered(Ok(register_wire())), NOW);
    let (flow, action) = flow.step(Event::<String>::AuthorizationStarted(Ok(device_auth_wire())), NOW);
    assert!(matches!(action, Action::Prompt { .. }));
    let (flow, action) = flow.step(Event::<String>::Prompted(Err("browser unavailable".to_string())), NOW);
    match action {
        Action::Finish(Err(SsoFlowError::VerificationPrompt(e))) => {
            assert_eq!(e, "browser unavailable");
        }
        other => panic!("unexpected action: {}", action_name(&other)),
    }
    // No poll attempt occurred, and none can ever occur now.
    assert!(flow.is_finished());
    assert!(!flow.expects(&Event::<String>::Polled(PollOutcome::AuthorizationPending)));
}

#[test]
fn remote_error_while_polling_is_an_api_error() {
    let flow = flow_at_polling();
    let (_, action) = flow.step(Event::<String>::Polled(PollOutcome::Failed("slow down".to_string())), NOW);
    match action {
        Action::Finish(Err(SsoFlowError::Api(e))) => assert_eq!(e.message(), "slow down"),
        other => panic!("unexpected action: {}", action_name(&other)),
    }
}

#[test]
fn fully_cached_flow_never_contacts_the_remote() {
    let cfg = config();
    let fp = fingerprint(&cfg);
    let flow = SsoFlow::build(Some("/var/cache/sso".to_string()), cfg);
    let (flow, action): (SsoFlow, Action<String>) = flow.start();
    match &action {
        Action::ReadCache { path } => assert_eq!(path, &format!("/var/cache/sso/client-{fp}.json")),
        other => panic!("unexpected action: {}", action_name(other)),
    }
    let client = ClientRegistration {
        client_id: "cid".to_string(),
        client_secret: "csecret".to_string(),
        secret_expires_at: NOW + 86_400,
    };
    let (flow, action) = flow.step(
        Event::<String>::CacheRead(aws_sso_flow::cache::ReadOutcome::Found(client.render())),
        NOW,
    );
    match &action {
        Action::ReadCache { path } => assert_eq!(path, &format!("/var/cache/sso/token-{fp}.json")),
        other => panic!("unexpected action: {}", action_name(other)),
    }
    let token = BearerToken { access_token: "tok".to_string(), expires_at: NOW + 7200 };
    let (flow, action) = flow.step(
        Event::<String>::CacheRead(aws_sso_flow::cache::ReadOutcome::Found(token.render())),
        NOW,
    );
    match &action {
        Action::ReadCache { path } => {
            assert_eq!(path, &format!("/var/cache/sso/credentials-{fp}.json"));
        }
        other => panic!("unexpected action: {}", action_name(other)),
    }
    let creds = SessionCredentials {
        access_key_id: "AKID".to_string(),
        secret_access_key: "SECRET".to_string(),
        session_token: "SESSION".to_string(),
        expires_at: NOW + 3600,
    };
    let (flow, action) = flow.step(
        Event::<String>::CacheRead(aws_sso_flow::cache::ReadOutcome::Found(creds.render())),
        NOW,
    );
    match action {
        Action::Finish(Ok(got)) => {
            assert_eq!(got.access_key_id, "AKID");
            assert_eq!(got.secret_access_key, "SECRET");
            assert_eq!(got.session_token, "SESSION");
            assert_eq!(got.expires_at, NOW + 3600);
        }
        other => panic!("unexpected action: {}", action_name(&other)),
    }
    assert!(flow.is_finished());
}

#[test]
fn stale_token_at_the_buffer_boundary_restarts_the_dialogue() {
    let cfg = config();
    let flow = SsoFlow::build(Some("/var/cache/sso".to_string()), cfg);
    let (flow, _): (SsoFlow, Action<String>) = flow.start();
    let client = ClientRegistration {
        client_id: "cid".to_string(),
        client_secret: "csecret".to_string(),
        secret_expires_at: NOW + 86_400,
    };
    let (flow, _) = flow.step(
        Event::<String>::CacheRead(aws_sso_flow::cache::ReadOutcome::Found(client.render())),
        NOW,
    );
    // Expiry exactly one second short of outliving the buffer: recompute.
    let stale = BearerToken { access_token: "tok".to_string(), expires_at: NOW + 59 };
    let (_, action) = flow.step(
        Event::<String>::CacheRead(aws_sso_flow::cache::ReadOutcome::Found(stale.render())),
        NOW,
    );
    assert!(matches!(action, Action::CallStartDeviceAuthorization { .. }));
}

#[test]
fn token_just_beyond_the_buffer_is_honored() {
    let cfg = config();
    let flow = SsoFlow::build(Some("/var/cache/sso".to_string()), cfg);
    let (flow, _): (SsoFlow, Action<String>) = flow.start();
    let client = ClientRegistration {
        client_id: "cid".to_string(),
        client_secret: "csecret".to_string(),
        secret_expires_at: NOW + 86_400,
    };
    let (flow, _) = flow.step(
        Event::<String>::CacheRead(aws_sso_flow::cache::ReadOutcome::Found(client.render())),
        NOW,
    );
    let valid = BearerToken { access_token: "tok".to_string(), expires_at: NOW + 61 };
    let (_, action) = flow.step(
        Event::<String>::CacheRead(aws_sso_flow::cache::ReadOutcome::Found(valid.render())),
        NOW,
    );
    assert!(matches!(action, Action::ReadCache { .. }));
}

#[test]
fn corrupt_cache_is_fatal_not_silently_bypassed() {
    let cfg = config();
    let fp = fingerprint(&cfg);
    let flow = SsoFlow::build(Some("/var/cache/sso".to_string()), cfg);
    let (flow, _): (SsoFlow, Action<String>) = flow.start();
    let (flow, action) = flow.step(
        Event::<String>::CacheRead(aws_sso_flow::cache::ReadOutcome::Found("garbage bytes".to_string())),
        NOW,
    );
    match action {
        Action::Finish(Err(SsoFlowError::Cache(e))) => {
            assert_eq!(
                e.message(),
                format!("corrupt cache file /var/cache/sso/client-{fp}.json"),
            );
        }
        other => panic!("unexpected action: {}", action_name(&other)),
    }
    // The compute path was never taken as a fallback.
    assert!(flow.is_finished());
}

#[test]
fn unreadable_cache_is_a_cache_error() {
    let cfg = config();
    let fp = fingerprint(&cfg);
    let flow = SsoFlow::build(Some("/var/cache/sso".to_string()), cfg);
    let (flow, _): (SsoFlow, Action<String>) = flow.start();
    let (_, action) = flow.step(
        Event::<String>::CacheRead(aws_sso_flow::cache::ReadOutcome::Unreadable(
            "permission denied".to_string(),
        )),
        NOW,
    );
    match action {
        Action::Finish(Err(SsoFlowError::Cache(e))) => {
            assert_eq!(
                e.message(),
                format!(
                    "failed to read cache file /var/cache/sso/client-{fp}.json: permission denied"
                ),
            );
        }
        other => panic!("unexpected action: {}", action_name(&other)),
    }
}

#[test]
fn absent_cache_computes_and_writes_back() {
    let cfg = config();
    let fp = fingerprint(&cfg);
    let flow = SsoFlow::build(Some("/var/cache/sso".to_string()), cfg);
    let (flow, _): (SsoFlow, Action<String>) = flow.start();
    let (flow, action) = flow.step(
        Event::<String>::CacheRead(aws_sso_flow::cache::ReadOutcome::Absent),
        NOW,
    );
    assert!(matches!(action, Action::CallRegisterClient { .. }));
    let (flow, action) = flow.step(Event::<String>::Registered(Ok(register_wire())), NOW);
    match &action {
        Action::WriteCache { path, content } => {
            assert_eq!(path, &format!("/var/cache/sso/client-{fp}.json"));
            let parsed = ClientRegistration::parse(content).expect("written content parses");
            assert_eq!(parsed.client_id, "cid");
        }
        other => panic!("unexpected action: {}", action_name(other)),
    }
    // A failed write is surfaced, not swallowed.
    let (_, action) = flow.step(Event::<String>::CacheWritten(Err("disk full".to_string())), NOW);
    match action {
        Action::Finish(Err(SsoFlowError::Cache(e))) => {
            assert_eq!(
                e.message(),
                format!("failed to write cache file /var/cache/sso/client-{fp}.json: disk full"),
            );
        }
        other => panic!("unexpected action: {}", action_name(&other)),
    }
}
