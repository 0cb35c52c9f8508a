[package]
name = "dnet"
version = "0.1.0"
edition = "2021"
publish = false

[dependencies]
convert_case = "*"
atomic-counter = "1"
futures = "0.3"
tracing = "0.1"
tracing-subscriber = { version = "0.3", features = ["env-filter"] }
serde = { version = "1", features = ["derive"] }
serde_json = "1"
bincode = { version = "2", features = ["serde"] }
syn = { version = "2", features = ["full", "extra-traits"] }
quote = "1"
proc-macro2 = "1"
proc-macro-crate = "*"
uuid = { version = "1", features = ["v4"] }
dportable = "*"
