[package]
name = "tcp_listen"
version = "0.1.0"
edition = "2021"
publish = false

[dependencies]
ockam_core = "*"
ockam_node = "*"
ockam_transport_core = "*"
tokio = { version = "1", features = ["net"] }
