[package]
name = "mcp-ethereum-server"
version = "0.1.0"
edition = "2021"
publish = false

[dependencies]
anyhow = "=1.0.104"
chrono = { version = "0.4", default-features = false, features = ["std", "clock"] }
clap = { version = "4", features = ["derive"] }
ethers-core = { version = "=2.0.14", default-features = false }
ethers-providers = { version = "=2.0.14", default-features = false, features = ["rustls"] }
reqwest = { version = "0.11", default-features = false, features = ["json", "rustls-tls"] }
rmcp = { version = "*", default-features = false, features = ["server", "transport-io"] }
serde = { version = "1", features = ["derive"] }
serde_json = "1"
thiserror = "1"
tokio = { version = "1", features = ["macros", "rt-multi-thread", "io-std"] }
tracing = "0.1"
tracing-appender = "0.2"
tracing-subscriber = "0.3"
