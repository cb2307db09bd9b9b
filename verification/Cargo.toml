[package]
name = "cosmic_settings"
version = "0.1.0"
edition = "2021"
publish = false

[dependencies]
rfd = { version = "=0.17.2", default-features = false, features = ["xdg-portal"] }
serde = { version = "=1.0.229", features = ["derive"] }
slotmap = "=1.1.1"
tokio = { version = "=1.54.1", features = ["time", "process", "rt"] }
tracing = "=0.1.44"
