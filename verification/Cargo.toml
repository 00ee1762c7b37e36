[package]
name = "libmv"
version = "0.1.0"
edition = "2021"
publish = false

[dependencies]
bytes = "1"
ed25519-dalek = { version = "2", features = ["rand_core"] }
quinn = "0.10"
rand = "0.8"
rapier3d = "0.17"
rcgen = "0.11"
rustls = { version = "0.21", features = ["dangerous_configuration", "quic"] }
tokio = { version = "1", features = ["full"] }
