[package]
name = "kodegen_mcp_tool"
version = "0.1.0"
edition = "2021"

[dependencies]
anyhow = "=1.0.104"
chrono = "=0.4.45"
dirs = "6"
futures = "0.3"
http = "=1.5.0"
kodegen_config = "=0.10.11"
kodegen_mcp_schema = "0.6.2"
log = "0.4"
parking_lot = "0.12"
rmcp = { version = "=0.9.1", features = ["server"] }
schemars = "1"
serde = { version = "1", features = ["derive"] }
serde_json = "=1.0.154"
termcolor = "1"
thiserror = "2"
tokio = { version = "1", features = ["fs", "io-util", "macros", "rt", "sync", "time"] }
tokio-util = "=0.7.20"
