[package]
name = "evo_device_audio"
version = "0.1.0"
edition = "2021"
publish = false

[dependencies]
base64 = "0.22"
chacha20poly1305 = "0.10"
getrandom = "0.3"
sha2 = "0.10"
lofty = "0.22"
semver = "1"
toml = "0.8"
serde = { version = "1", features = ["derive"] }
serde_json = "1"
tokio = { version = "1", features = ["rt-multi-thread", "macros", "process", "fs", "time", "io-util", "sync", "net"] }
anyhow = "1"
async-trait = "0.1"
clap = { version = "4", features = ["derive"] }
thiserror = "2"
tracing = "0.1"
tracing-subscriber = { version = "0.3", features = ["env-filter"] }
nix = { version = "0.29", features = ["fs"] }
alsa = "0.9"
