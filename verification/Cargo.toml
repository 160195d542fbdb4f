[package]
name = "vulnclaw_tui"
version = "0.1.0"
edition = "2021"
publish = false

[dependencies]
serde = { version = "=1.0.229", features = ["derive"] }
serde_json = { version = "=1.0.154", features = ["float_roundtrip"] }
jsonschema = { version = "=0.60.2", default-features = false }
ratatui = { version = "=0.29.0", default-features = false, features = ["unstable-rendered-line-info"] }
