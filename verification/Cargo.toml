[package]
name = "gotatun"
version = "0.1.0"
edition = "2021"
publish = false

[dependencies]
bytes = "=1.12.1"
either = "=1.19.0"
eyre = "=0.6.14"
rand = "=0.9.5"
tracing = "=0.1.44"
x25519-dalek = { version = "=2.0.1", features = ["static_secrets"] }

[dev-dependencies]
etherparse = "=0.21.0"
mock_instant = "=0.6.1"
