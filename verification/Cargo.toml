[package]
name = "ldk_node_core"
version = "0.1.0"
edition = "2021"
publish = false

[dependencies]
base64 = "=0.13.1"
bitcoin = "0.27"
bitcoin-bech32 = "=0.7.0"
lightning = "=0.0.106"
lightning-background-processor = "=0.0.106"
lightning-block-sync = { version = "=0.0.106", features = ["rpc-client"] }
lightning-net-tokio = "=0.0.106"
lightning-persister = "=0.0.106"
rand = "=0.4.6"
serde_json = "=1.0.154"
tokio = { version = "=1.54.1", features = ["io-util", "macros", "rt", "rt-multi-thread", "sync", "net", "time"] }
