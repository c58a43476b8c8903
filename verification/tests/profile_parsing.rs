use aws_sso_flow::profile::{
    get_config_file_from_env, get_profile_from_env, parse_profile, parse_profile_name, EnvValue,
    ProfileSource,
};

const CONTENT: &str = "\
# shared configuration\n\
[default]\n\
sso_region = eu-west-1\n\
\n\
[profile work]\n\
sso_region = eu-west-1\n\
sso_start_url = https://myorg.awsapps.com/start\n\
sso_account_id = 012345678910\n\
sso_role_name = PowerUser\n\
[profile after]\n\
sso_region = us-east-1\n";

#[test]
fn complete_profile_loads_with_exact_values() {
    let cfg = parse_profile(CONTENT, "work", "/home/u/.aws/config").expect("profile loads");
    assert_eq!(cfg.region.as_str(), "eu-west-1");
    assert_eq!(cfg.start_url, "https://myorg.awsapps.com/start");
    assert_eq!(cfg.account_id, "012345678910");
    assert_eq!(cfg.role_name, "PowerUser");
}

#[test]
fn incomplete_profile_names_the_missing_keys() {
    let err = parse_profile(CONTENT, "default", "/home/u/.aws/config").unwrap_err();
    assert_eq!(
        err.message(),
        "incomplete SSO configuration in profile default; missing: sso_start_url, sso_account_id, sso_role_name",
    );
}

#[test]
fn missing_profile_is_reported_as_not_defined() {
    let err = parse_profile(CONTENT, "absent", "/cfg").unwrap_err();
    assert_eq!(err.message(), "profile absent is not defined in config file /cfg");
}

#[test]
fn scanning_stops_at_the_next_section_header() {
    // The region under `[profile after]` must not leak into `work`;
    // conversely `after` must not see `work`'s keys.
    let err = parse_profile(CONTENT, "after", "/cfg").unwrap_err();
    assert_eq!(
        err.message(),
        "incomplete SSO configuration in profile after; missing: sso_start_url, sso_account_id, sso_role_name",
    );
}

#[test]
fn comments_blanks_and_spacing_are_forgiven() {
    let content = "  [profile p]  \n# comment\n\n  sso_region=r\n  sso_start_url =  u \nsso_account_id= a\nsso_role_name = n\n";
    let cfg = parse_profile(content, "p", "/cfg").expect("profile loads");
    assert_eq!(cfg.region.as_str(), "r");
    assert_eq!(cfg.start_url, "u");
    assert_eq!(cfg.account_id, "a");
    assert_eq!(cfg.role_name, "n");
}

#[test]
fn later_values_win_within_a_section() {
    let content = "[p]\nsso_region = one\nsso_region = two\n\
        sso_start_url = u\nsso_account_id = a\nsso_role_name = n\n";
    let cfg = parse_profile(content, "p", "/cfg").expect("profile loads");
    assert_eq!(cfg.region.as_str(), "two");
}

#[test]
fn first_matching_section_wins() {
    let content = "[p]\nsso_region = first\nsso_start_url = u\nsso_account_id = a\nsso_role_name = n\n\
        [p]\nsso_region = second\n";
    let cfg = parse_profile(content, "p", "/cfg").expect("profile loads");
    assert_eq!(cfg.region.as_str(), "first");
}

#[test]
fn crlf_line_endings_are_accepted() {
    let content = "[profile w]\r\nsso_region = r\r\nsso_start_url = u\r\n\
        sso_account_id = a\r\nsso_role_name = n\r\n";
    let cfg = parse_profile(content, "w", "/cfg").expect("profile loads");
    assert_eq!(cfg.region.as_str(), "r");
}

#[test]
fn section_headers_parse_with_and_without_the_profile_word() {
    assert_eq!(parse_profile_name("[profile work]").as_deref(), Some("work"));
    assert_eq!(parse_profile_name("[default]").as_deref(), Some("default"));
    assert_eq!(parse_profile_name("  [x]  ").as_deref(), Some("x"));
    assert_eq!(parse_profile_name("[]").as_deref(), Some(""));
    assert_eq!(parse_profile_name("not a header"), None);
    assert_eq!(parse_profile_name("[unclosed"), None);
}

#[test]
fn profile_name_comes_from_the_environment_or_the_default() {
    assert_eq!(get_profile_from_env(EnvValue::Present("work".to_string())).unwrap(), "work");
    assert_eq!(get_profile_from_env(EnvValue::Absent).unwrap(), "default");
    let err = get_profile_from_env(EnvValue::Invalid("\"\\xff\"".to_string())).unwrap_err();
    assert_eq!(
        err.message(),
        "invalid profile name in environment variable AWS_PROFILE: \"\\xff\" contains invalid UTF-8",
    );
}

#[test]
fn config_file_comes_from_the_environment_or_the_home_directory() {
    let explicit = get_config_file_from_env(
        EnvValue::Present("/etc/aws.conf".to_string()),
        Some("/home/u".to_string()),
    );
    assert_eq!(explicit.unwrap(), "/etc/aws.conf");
    let derived = get_config_file_from_env(EnvValue::Absent, Some("/home/u".to_string()));
    assert_eq!(derived.unwrap(), "/home/u/.aws/config");
    let err = get_config_file_from_env(EnvValue::Absent, None).unwrap_err();
    assert_eq!(err.message(), "could not determine home directory");
}

#[test]
fn profile_source_overrides_accumulate() {
    let source = ProfileSource::new()
        .with_config_file("/etc/aws.conf".to_string())
        .with_profile("work".to_string());
    assert_eq!(source.config_file.as_deref(), Some("/etc/aws.conf"));
    assert_eq!(source.profile.as_deref(), Some("work"));
}
