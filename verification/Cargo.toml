[package]
name = "badge_net"
version = "0.1.0"
edition = "2021"
publish = false

[dependencies]
embassy-futures = "0.1"
tokio = { version = "=1.54.1", features = ["net", "io-util", "time", "rt-multi-thread", "sync"] }

[dev-dependencies]
postcard = { version = "=1.1.3", default-features = false }
