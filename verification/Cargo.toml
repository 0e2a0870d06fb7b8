[package]
name = "openlogi"
version = "0.1.0"
edition = "2021"
publish = false

[dependencies]
hidpp = "=0.2.0"
serde = { version = "=1.0.229", features = ["derive"] }
toml = "=1.1.8"
toml_edit = "=0.25.17"
thiserror = "=2.0.21"
tokio = { version = "=1.54.1", features = ["rt", "sync", "time", "macros"] }
atomic-write-file = "*"
fluent-langneg = "*"
sys-locale = "*"
rust-i18n = "*"
