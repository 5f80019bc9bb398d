[package]
name = "aghast"
version = "0.1.0"
edition = "2021"
publish = false

[dependencies]
ed25519-dalek = "*"
hex = "*"
axum = "*"
tokio = { version = "*", features = ["rt", "net", "macros", "signal"] }
serde = { version = "*", features = ["derive"] }
serde_json = "*"
twilight-http = "*"
twilight-model = "*"
twilight-util = { version = "*", features = ["builder"] }
twilight-interactions = "*"
valk-utils = "*"
vss = "*"
