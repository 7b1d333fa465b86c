[package]
name = "reqwest_hickory_resolver"
version = "0.1.0"
edition = "2021"
publish = false

[dependencies]
hickory-resolver = "0.25"
rand = { version = "0.9", features = ["small_rng", "os_rng"] }
reqwest = { version = "0.12", default-features = false }

[dev-dependencies]
tokio = { version = "1", features = ["rt-multi-thread"] }
