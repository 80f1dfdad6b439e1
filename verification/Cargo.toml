[package]
name = "prism_core"
version = "0.1.0"
edition = "2021"
publish = false

[dependencies]
stellar-strkey = "*"
stellar-xdr = { version = "22", features = ["curr", "base64", "serde"] }
serde = { version = "1", features = ["derive"] }
serde_json = "1"
base64 = "0.22"
hex = "*"
bincode = "1"
wasmparser = "*"
toml = "*"
directories = "*"
prometheus = { version = "*", default-features = false }
reqwest = { version = "*", default-features = false, features = ["json"] }
tokio = { version = "1", features = ["rt-multi-thread", "macros", "time", "sync", "net", "io-util"] }
clap = { version = "4", features = ["derive"] }
anyhow = "1"
indicatif = "*"
tracing = "*"
tracing-subscriber = { version = "*", features = ["env-filter", "fmt"] }
