[package]
name = "smol_profile_card"
version = "0.1.0"
edition = "2021"
publish = false

[dependencies]
axum = "0.6"
axum-macros = "0.3"
chrono = "0.4"
clap = { version = "4", features = ["derive"] }
handlebars = "4"
image = "0.24"
imageproc = "0.23"
log = "0.4"
reqwest = { version = "0.11", default-features = false }
rusqlite = { version = "0.29", features = ["bundled"] }
rusttype = "0.9"
serde = { version = "1", features = ["derive"] }
serde_json = "1"
tokio = { version = "1", features = ["full"] }
tokio-rusqlite = "0.4"
tower = { version = "0.4", features = ["util"] }
tower-http = { version = "0.4", features = ["fs", "trace"] }
tracing-subscriber = { version = "0.3", features = ["env-filter"] }
urlencoding = "2"
