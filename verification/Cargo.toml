[package]
name = "component_shape"
version = "0.1.0"
edition = "2021"
publish = false

[dependencies]
serde = { version = "1", features = ["derive"] }
serde_json = "1"
syn = { version = "2", features = ["full"] }
rmcp = { version = "*", features = ["server", "transport-io"] }
tokio = { version = "1", features = ["rt", "rt-multi-thread", "macros", "io-std"] }
thiserror = "2"
chrono = "0.4"
rust_decimal = "1"
anyhow = "1"
clap = { version = "4", features = ["derive"] }
