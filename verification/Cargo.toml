[package]
name = "eth_data_extractor"
version = "0.1.0"
edition = "2021"
publish = false

[dependencies]
alloy-primitives = { version = "1", default-features = false, features = ["std"] }
backoff = "0.4"
chrono = { version = "0.4", default-features = false, features = ["std", "now"] }
clap = { version = "4", default-features = false, features = ["std", "derive", "help", "usage", "error-context"] }
color-eyre = { version = "0.6", default-features = false }
comfy-table = { version = "7", default-features = false }
jsonrpsee = { version = "0.24", features = ["http-client"] }
moka = { version = "0.12", default-features = false, features = ["sync"] }
serde_json = "1"
tokio = { version = "1", features = ["macros", "rt-multi-thread", "time"] }
