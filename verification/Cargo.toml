[package]
name = "camaleon"
version = "0.1.0"
edition = "2021"
publish = false

[dependencies]
serde_json = "1"
chrono = "0.4"
regex = "1"
rand = "0.8"
nix = { version = "0.29", features = ["user"] }
pcap = "1"
libc = "0.2"
serde = { version = "1", features = ["derive"] }
thiserror = "1"
anyhow = "1"
clap = { version = "4", features = ["derive"] }
colored = "2"
csv = "1"
handlebars = "4"
toml = "0.8"
tokio = { version = "1", features = ["rt", "sync", "macros"] }
async-trait = "0.1"
axum = "0.6"
tower-http = { version = "0.4", features = ["cors"] }
tracing = "0.1"
tracing-subscriber = "0.3"
