[package]
name = "gitops"
version = "0.1.0"
edition = "2021"
publish = false

[dependencies]
anyhow = "=1.0.104"
clap = { version = "=4.6.7", features = ["derive"] }
flate2 = "=1.1.10"
fs_extra = "=1.3.0"
nu-ansi-term = "=0.50.3"
opendal = { version = "=0.59.5", features = ["services-oss", "layers-mime-guess"] }
pushover-rs = "=0.3.23"
reqwest = "=0.13.5"
serde = { version = "=1.0.229", features = ["derive"] }
tar = "=0.4.46"
tokio = { version = "=1.54.1", features = ["full"] }
toml = "=1.1.8"
tracing = "=0.1.44"
tracing-subscriber = { version = "=0.3.23", features = ["chrono"] }
windows-service = "=0.8.1"
zip = { version = "=9.2.2", default-features = false, features = ["deflate"] }
