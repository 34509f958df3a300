[package]
name = "gesture_engine"
version = "0.1.0"
edition = "2021"
publish = false

[dependencies]
chrono = "0.4"
envy = "0.4"
input = "*"
libc = "0.2"
nix = "0.26"
serde = { version = "1", features = ["derive"] }
serde_yaml = "0.9"
timer = "0.2"
tracing = "0.1"
tracing-appender = "0.2"
tracing-subscriber = "0.3"
