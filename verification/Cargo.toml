[package]
name = "bangle_emu"
version = "0.1.0"
edition = "2021"
publish = false

[dependencies]
anyhow = "=1.0.104"
base64 = "=0.21.7"
clap = { version = "=4.6.7", features = ["derive"] }
crossterm = { version = "=0.25.0", features = ["event-stream"] }
env_logger = "=0.10.2"
futures = "=0.3.34"
futures-core = "=0.3.34"
futures-timer = "=3.0.4"
log = "=0.4.34"
pin-project-lite = "=0.2.17"
serde = { version = "=1.0.229", features = ["derive"] }
serde_derive = "=1.0.229"
tokio = { version = "=1.54.1", features = ["full"] }
toml = "=0.7.8"
tui = "=0.19.0"
unicode-width = "=0.1.14"
wasmtime = { version = "=36.0.19", default-features = false, features = ["cranelift", "runtime"] }
