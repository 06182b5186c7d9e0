[package]
name = "gitjobs-server"
version = "0.1.0"
edition = "2021"
publish = false

[dependencies]
anyhow = "=1.0.104"
async-trait = "=0.1.92"
axum = "=0.8.9"
chrono = "=0.4.45"
clap = { version = "=4.6.7", features = ["derive"] }
deadpool-postgres = "=0.14.2"
figment = { version = "=0.10.19", features = ["yaml", "env"] }
image = { version = "=0.25.10", default-features = false, features = ["png", "jpeg", "gif", "webp"] }
lettre = { version = "=0.11.23", default-features = false, features = ["builder", "smtp-transport", "tokio1", "tokio1-native-tls"] }
mime_guess = "=2.0.5"
openssl = "=0.10.82"
password-auth = "=1.0.0"
postgres-openssl = "=0.5.3"
serde = { version = "=1.0.229", features = ["derive"] }
serde_json = "=1.0.154"
time = { version = "=0.3.55", features = ["formatting", "parsing"] }
tokio = { version = "=1.54.1", features = ["full"] }
tokio-postgres = { version = "=0.7.18", features = ["with-uuid-1", "with-serde_json-1", "with-chrono-0_4"] }
tokio-util = { version = "=0.7.20", features = ["rt"] }
tower-http = { version = "0.6", features = ["set-header", "trace", "validate-request", "auth"] }
tracing = "=0.1.44"
tracing-subscriber = { version = "=0.3.23", features = ["env-filter", "json"] }
uuid = { version = "=1.29.1", features = ["v4", "serde"] }
