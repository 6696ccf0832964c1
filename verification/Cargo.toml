[package]
name = "copilot_sdk"
version = "0.1.0"
edition = "2021"
publish = false

[dependencies]
serde = { version = "=1.0.229", features = ["derive"] }
serde_json = "=1.0.154"
which = "=8.0.6"
tokio = { version = "=1.54.1", features = ["rt-multi-thread", "macros", "process", "io-util", "sync", "time", "net"] }
async-trait = "=0.1.92"
thiserror = "=2.0.21"
tracing = "=0.1.44"
libc = "=0.2.191"
schemars = "=1.2.3"
windows-sys = { version = "*", features = ["Win32_Foundation", "Win32_Security", "Win32_System_JobObjects"] }
