[package]
name = "rust_app"
version = "0.1.0"
edition = "2021"
publish = false

[dependencies]
email_address = "=0.2.9"
base-62 = "=0.1.1"
rand = "=0.9.5"
chrono = "=0.4.45"
base64 = "=0.22.1"
jsonwebtoken = "=9.3.1"
serde = { version = "=1.0.229", features = ["derive"] }
serde_json = "=1.0.154"
dotenv = "=0.15.0"
tracing = "=0.1.44"
tracing-subscriber = { version = "=0.3.23", features = ["env-filter"] }
atty = "=0.2.14"
anyhow = "=1.0.104"
tokio = { version = "=1.54.1", features = ["macros", "rt-multi-thread"] }
lambda_runtime = "=1.5.0"
cloudfront_sign = "=0.4.1"
http = "=1.5.0"
google-identitytoolkit3 = { version = "=7.0.0", features = ["yup-oauth2-service-account"] }
