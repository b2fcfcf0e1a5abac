[package]
name = "ut_verification"
version = "0.1.0"
edition = "2021"
publish = false

[dependencies]
aes-gcm = "=0.9.4"
aws-config = "=0.9.0"
aws-sdk-dynamodb = "=0.9.0"
aws-sdk-sqs = "=0.9.0"
base64 = "=0.13.1"
cgi = "=0.6.0"
handlebars = "=4.5.0"
jsonwebtoken = "=8.3.0"
lazy_static = "=1.5.1"
ldap3 = { version = "=0.10.6", default-features = false, features = ["sync"] }
lettre = "=0.9.6"
lettre_email = "=0.9.4"
reqwest = { version = "=0.11.27", default-features = false, features = ["blocking", "json", "rustls-tls"] }
ring = "=0.16.20"
rmp-serde = "=1.3.1"
serde = { version = "=1.0.229", features = ["derive"] }
serde_json = "=1.0.154"
serenity = { version = "=0.10.10", default-features = false, features = ["builder", "client", "gateway", "http", "model", "utils", "rustls_backend", "unstable_discord_api"] }
tokio = { version = "=1.54.1", features = ["full"] }

[dev-dependencies]
rand = "=0.8.8"
