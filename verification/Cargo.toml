[package]
name = "github_event_handler"
version = "0.1.0"
edition = "2021"
publish = false

[dependencies]
allocative = "=0.3.6"
axum = "=0.8.9"
axum-core = "=0.5.6"
envious = "=0.3.0"
hyper = "=1.12.0"
indoc = "=2.0.8"
jsonwebtoken = "9"
octocrab = "0.44"
orion = "=0.17.15"
serde = { version = "=1.0.229", features = ["derive"] }
snafu = "0.8"
starlark = "=0.14.2"
thiserror = "=2.0.21"
tokio = { version = "=1.54.1", features = ["net", "rt-multi-thread"] }
tracing = "=0.1.44"

[dev-dependencies]
hex = "=0.4.3"
