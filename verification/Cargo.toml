[package]
name = "kapsaro-core"
version = "0.1.0"
edition = "2021"
publish = false

[dependencies]
zeroize = "=1.9.1"
time = { version = "=0.3.55", features = ["formatting"] }
uuid = { version = "=1.29.0", features = ["v4"] }
serde = { version = "=1.0.229", features = ["derive"] }
serde_json = "=1.0.154"
rustix = { version = "=1.1.6", features = ["process", "fs", "rand"] }
libc = "=0.2.191"
tracing = "=0.1.44"
