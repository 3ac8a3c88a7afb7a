[package]
name = "cosmic_osd"
version = "0.1.0"
edition = "2021"
publish = false

[dependencies]
uzers = "=0.12.2"
tokio = { version = "=1.54.1", features = ["process", "io-util", "sync", "rt", "macros", "time", "net"] }
zbus = { version = "=5.19.0", default-features = false, features = ["tokio"] }
serde = { version = "=1.0.229", features = ["derive"] }
serde_json = "=1.0.154"
clap = { version = "=4.6.7", features = ["derive"] }
log = "=0.4.34"
env_logger = "=0.11.11"
futures = "=0.3.34"
rustix = { version = "=1.1.5", features = ["fs"] }
xdg = "=3.0.0"
