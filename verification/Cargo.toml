[package]
name = "ssb_client"
version = "0.1.0"
edition = "2021"
publish = false

[dependencies]
box_stream = "=0.5.0"
futures = "=0.1.31"
lazy_static = "=1.5.1"
muxrpc = "=0.2.0"
secret_handshake = "=4.0.0"
secret_stream = "=0.3.0"
serde = "=1.0.229"
serde_json = "=1.0.154"
sodiumoxide = "=0.0.16"
ssb-common = "=0.3.0"
ssb-crypto = "=0.2.3"
ssb-keyfile = "=0.5.4"
ssb-rpc = "=0.3.1"
tokio-io = "=0.1.13"
