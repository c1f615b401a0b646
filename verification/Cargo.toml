[package]
name = "glue"
version = "0.1.0"
edition = "2021"
publish = false

[dependencies]
anyhow = "1"
async-trait = "0.1"
bincode = "1"
byteorder = "1"
clap = { version = "4", features = ["derive"] }
log = "0.4"
notify-rust = "4"
rand = "0.9"
serde = { version = "1", features = ["derive"] }
serde_json = "1"
simplelog = "0.12"
systemstat = "0.2"
thiserror = "1"
tokio = { version = "1", features = ["rt-multi-thread", "macros", "net", "io-util", "sync", "time", "fs"] }
wayland-client = "0.31"
wayland-protocols = { version = "0.32", features = ["client", "unstable"] }
