[package]
name = "drbd_ha"
version = "0.1.0"
edition = "2021"
publish = false

[dependencies]
toml = "=1.1.8"
toml_edit = "*"
serde = { version = "=1.0.229", features = ["derive"] }
serde_json = "=1.0.154"
thiserror = "=2.0.21"
gethostname = "=1.1.0"
uuid = { version = "=1.29.0", features = ["v4"] }
chrono = "=0.4.45"
