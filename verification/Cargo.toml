[package]
name = "mediavault"
version = "0.1.0"
edition = "2021"
publish = false

[dependencies]
infer = "=0.15.0"
sha2 = "=0.10.9"
hex = "=0.4.3"
uuid = { version = "=1.29.0", features = ["v4"] }
image = { version = "=0.25.10", default-features = false, features = ["jpeg", "png", "webp"] }
serde = { version = "=1.0.229", features = ["derive"] }
serde_json = "=1.0.154"
tokio = { version = "=1.54.1", features = ["full"] }
axum = "=0.6.20"
tower = "=0.4.13"
tower-http = { version = "=0.4.4", features = ["catch-panic", "sensitive-headers", "timeout", "validate-request", "auth"] }
tracing = { version = "=0.1.44", features = ["log"] }
tracing-subscriber = { version = "=0.3.23", features = ["json"] }
reqwest = { version = "=0.11.27", default-features = false, features = ["rustls-tls"] }
aws-config = "=1.12.0"
aws-sdk-s3 = "=1.152.0"
# Held back for aws-config and aws-sdk-s3: with aws-types 1.7 they are built
# against two versions of aws-smithy-schema and do not compile.
aws-types = "=1.6.0"
dotenv = "=0.15.0"
