[package]
name = "pcapng-mcp-server"
version = "0.1.0"
edition = "2021"
publish = false

[dependencies]
pcap-parser = "0.17"
chrono = { version = "0.4", features = ["serde"] }
serde = { version = "1", features = ["derive"] }
serde_json = "1"
thiserror = "*"
clap = { version = "4", features = ["derive"] }
tokio = { version = "1", features = ["macros", "rt-multi-thread", "io-std", "io-util"] }
tracing = "0.1"
tracing-subscriber = "0.3"
rmcp = { version = "0.3", features = ["server"] }
