[package]
name = "gossip_discovery"
version = "0.1.0"
edition = "2021"
publish = false

[dependencies]
bytes = "=1.12.1"
ciborium = "=0.2.2"
dashmap = "=6.2.1"
futures-lite = "=2.6.1"
iroh = { version = "=1.4.1", default-features = false }
iroh-gossip = { version = "=0.101.0", default-features = false, features = ["net"] }
tokio = { version = "=1.54.1", default-features = false, features = ["sync", "time", "rt"] }
