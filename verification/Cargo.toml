[package]
name = "skopio"
version = "0.1.0"
edition = "2021"
publish = false

[dependencies]
sha2 = "0.10"
semver = "1"
url = "2"
percent-encoding = "2"
tokei = "12"
dashmap = "6"
chrono = "0.4"
serde = { version = "1", features = ["derive"] }
serde_json = "1"
clap = { version = "4", features = ["derive"] }
dirs = "5"
rusqlite = { version = "0.31", features = ["bundled"] }
zip = { version = "2", default-features = false, features = ["deflate"] }
log = "0.4"
thiserror = "1"
