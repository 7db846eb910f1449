[package]
name = "guest_launcher"
version = "0.1.0"
edition = "2021"
publish = false

[dependencies]
anyhow = "1"
async-trait = "0.1"
clap = { version = "4", features = ["derive"] }
command-fds = { version = "0.3", features = ["tokio"] }
log = "0.4"
prost = { version = "=0.13.5", default-features = false, features = ["std"] }
tokio = { version = "1", features = ["process", "rt", "macros", "io-util", "sync"] }
