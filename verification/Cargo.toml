[package]
name = "mcp_server_rust"
version = "0.1.0"
edition = "2021"

[dependencies]
serde_json = "1"
anyhow = "1"

[dependencies.tokio]
version = "1"
features = ["rt-multi-thread", "net", "io-util", "macros"]

[dependencies.clap]
version = "4"
features = ["derive"]
