[package]
name = "aws_sso_flow"
version = "0.1.0"
edition = "2021"
publish = false

[dependencies]
md-5 = "*"
chrono = "*"
url = "*"
dirs-next = "*"
tokio = { version = "*", default-features = false, features = ["fs", "time", "rt", "macros"] }
futures = "*"
aws-config = { version = "*", default-features = false }
aws-sdk-sso = { version = "*", default-features = false }
aws-sdk-ssooidc = { version = "*", default-features = false }
