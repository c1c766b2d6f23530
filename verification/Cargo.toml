[package]
name = "firecracker"
version = "0.1.0"
edition = "2021"
publish = false

[dependencies]
timerfd = "=1.6.0"
log = "=0.4.35"
libc = "=0.2.191"
serde = { version = "=1.0.229", features = ["derive"] }
serde_json = "=1.0.154"
bincode = "1"
