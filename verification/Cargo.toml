[package]
name = "tobira-lti"
version = "0.1.0"
edition = "2021"
publish = false

[dependencies]
aws-lc-rs = "1"
base64 = "0.22"
chrono = "0.4"
clap = { version = "4", features = ["derive"] }
cookie = "0.18"
form_urlencoded = "1"
hyper = { version = "1", features = ["http1", "server"] }
jwtea = "*"
pem-rfc7468 = { version = "0.7", features = ["std"] }
serde = { version = "1", features = ["derive"] }
serde_json = "1"
tokio-postgres = { version = "0.7", features = ["with-chrono-0_4"] }
url = "2"
