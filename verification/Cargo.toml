[package]
name = "pcpaneld"
version = "0.1.0"
edition = "2021"
publish = false

[dependencies]
anyhow = "*"
clap = { version = "*", features = ["derive"] }
dirs = "*"
hidapi = "*"
ksni = "*"
libc = "*"
libpulse-binding = "*"
notify = "*"
serde = { version = "*", features = ["derive"] }
serde_json = "*"
thiserror = "*"
tokio = { version = "*", features = ["full"] }
tokio-util = "*"
toml_edit = { version = "*", features = ["serde"] }
tracing = "*"
tracing-subscriber = "*"
udev = "*"
zbus = "*"
