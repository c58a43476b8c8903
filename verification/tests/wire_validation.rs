use aws_sso_flow::credentials::{
    validate_role_credentials, RoleCredentialsFields, RoleCredentialsWire,
};
use aws_sso_flow::oidc::{
    validate_create_token, validate_register_client, validate_start_device_authorization,
    CreateTokenWire, RegisterClientWire, StartDeviceAuthorizationWire,
};
use aws_sso_flow::SsoFlowBuilder;

fn full_device_auth() -> StartDeviceAuthorizationWire {
    StartDeviceAuthorizationWire {
        device_code: Some("dev".to_string()),
        user_code: Some("usr".to_string()),
        verification_uri_complete: Some("https://device.sso.example/activate".to_string()),
        interval: 5,
        expires_in: 600,
    }
}

#[test]
fn register_client_requires_both_fields() {
    let missing_id = RegisterClientWire {
        client_id: None,
        client_secret: Some("s".to_string()),
        client_secret_expires_at: 1,
    };
    assert_eq!(
        validate_register_client(missing_id).unwrap_err(),
        "invalid RegisterClient response: missing client_id",
    );
    let missing_secret = RegisterClientWire {
        client_id: Some("c".to_string()),
        client_secret: None,
        client_secret_expires_at: 1,
    };
    assert_eq!(
        validate_register_client(missing_secret).unwrap_err(),
        "invalid RegisterClient response: missing client_secret",
    );
    let ok = validate_register_client(RegisterClientWire {
        client_id: Some("c".to_string()),
        client_secret: Some("s".to_string()),
        client_secret_expires_at: 99,
    })
    .unwrap();
    assert_eq!(ok.client_id, "c");
    assert_eq!(ok.client_secret, "s");
    assert_eq!(ok.secret_expires_at, 99);
}

#[test]
fn register_client_floors_a_negative_expiry_at_zero() {
    let ok = validate_register_client(RegisterClientWire {
        client_id: Some("c".to_string()),
        client_secret: Some("s".to_string()),
        client_secret_expires_at: -5,
    })
    .unwrap();
    assert_eq!(ok.secret_expires_at, 0);
}

#[test]
fn device_authorization_names_each_missing_field() {
    let mut w = full_device_auth();
    w.device_code = None;
    assert_eq!(
        validate_start_device_authorization(w).unwrap_err(),
        "invalid StartDeviceAuthorization response: missing device_code",
    );
    let mut w = full_device_auth();
    w.user_code = None;
    assert_eq!(
        validate_start_device_authorization(w).unwrap_err(),
        "invalid StartDeviceAuthorization response: missing user_code",
    );
    let mut w = full_device_auth();
    w.verification_uri_complete = None;
    assert_eq!(
        validate_start_device_authorization(w).unwrap_err(),
        "invalid StartDeviceAuthorization response: missing verification_uri_complete",
    );
}

#[test]
fn device_authorization_rejects_a_bad_url_and_a_negative_interval() {
    let mut w = full_device_auth();
    w.verification_uri_complete = Some("no scheme here".to_string());
    assert_eq!(
        validate_start_device_authorization(w).unwrap_err(),
        "invalid StartDeviceAuthorization response: verification_uri_complete is not a valid URL",
    );
    let mut w = full_device_auth();
    w.interval = -1;
    assert_eq!(
        validate_start_device_authorization(w).unwrap_err(),
        "invalid StartDeviceAuthorization response: negative interval",
    );
}

#[test]
fn device_authorization_carries_the_challenge_through() {
    let c = validate_start_device_authorization(full_device_auth()).unwrap();
    assert_eq!(c.device_code, "dev");
    assert_eq!(c.user_code, "usr");
    assert_eq!(c.verification_url, "https://device.sso.example/activate");
    assert_eq!(c.poll_interval_seconds, 5);
    assert_eq!(c.lifetime_seconds, 600);
}

#[test]
fn create_token_requires_the_token_and_dates_the_expiry_from_now() {
    let missing = CreateTokenWire { access_token: None, expires_in: 100 };
    assert_eq!(
        validate_create_token(missing, 50).unwrap_err(),
        "invalid CreateToken response: missing access_token",
    );
    let ok = validate_create_token(
        CreateTokenWire { access_token: Some("t".to_string()), expires_in: 100 },
        50,
    )
    .unwrap();
    assert_eq!(ok.access_token, "t");
    assert_eq!(ok.expires_at, 150);
    // The expiry clamps instead of overflowing or going negative.
    let clamped_low = validate_create_token(
        CreateTokenWire { access_token: Some("t".to_string()), expires_in: -100 },
        50,
    )
    .unwrap();
    assert_eq!(clamped_low.expires_at, 0);
    let clamped_high = validate_create_token(
        CreateTokenWire { access_token: Some("t".to_string()), expires_in: 100 },
        i64::MAX - 1,
    )
    .unwrap();
    assert_eq!(clamped_high.expires_at, i64::MAX);
}

#[test]
fn role_credentials_require_every_field() {
    assert_eq!(
        validate_role_credentials(RoleCredentialsWire { role_credentials: None }).err().unwrap(),
        "invalid GetRoleCredentials response: missing role_credentials",
    );
    let partial = RoleCredentialsWire {
        role_credentials: Some(RoleCredentialsFields {
            access_key_id: Some("k".to_string()),
            secret_access_key: None,
            session_token: Some("st".to_string()),
            expiration: 0,
        }),
    };
    assert_eq!(
        validate_role_credentials(partial).err().unwrap(),
        "invalid GetRoleCredentials response: missing secret_access_key",
    );
}

#[test]
fn role_credentials_convert_the_millisecond_expiry() {
    let ok = validate_role_credentials(RoleCredentialsWire {
        role_credentials: Some(RoleCredentialsFields {
            access_key_id: Some("k".to_string()),
            secret_access_key: Some("s".to_string()),
            session_token: Some("st".to_string()),
            expiration: 1_800_000_000_999,
        }),
    })
    .ok()
    .unwrap();
    assert_eq!(ok.expires_at, 1_800_000_000);
    let negative = validate_role_credentials(RoleCredentialsWire {
        role_credentials: Some(RoleCredentialsFields {
            access_key_id: Some("k".to_string()),
            secret_access_key: Some("s".to_string()),
            session_token: Some("st".to_string()),
            expiration: -1,
        }),
    })
    .ok()
    .unwrap();
    assert_eq!(negative.expires_at, 0);
}

#[test]
fn builder_resolves_the_cache_directory() {
    let b = SsoFlowBuilder::new().cache_dir("/custom".to_string());
    assert_eq!(b.resolve_cache_dir(Some("/os/cache".to_string())).as_deref(), Some("/custom"));
    let b = SsoFlowBuilder::new();
    assert_eq!(
        b.resolve_cache_dir(Some("/os/cache".to_string())).as_deref(),
        Some("/os/cache/aws-sso-flow@0.1"),
    );
    assert_eq!(b.resolve_cache_dir(None), None);
}
