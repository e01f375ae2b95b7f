[package]
name = "jonect"
version = "0.1.0"
edition = "2021"
publish = false

[dependencies]
audiopus = "=0.2.0"
bytes = "=1.12.1"
gtk = "=0.15.5"
libc = "=0.2.191"
libpulse-binding = "2"
libpulse-glib-binding = "=2.25.1"
log = "=0.4.35"
nix = "=0.26.4"
rusb = { version = "=0.9.4", features = ["vendored"] }
serde = { version = "=1.0.229", features = ["derive"] }
serde_json = "=1.0.154"
tokio = { version = "=1.54.1", features = ["full"] }
