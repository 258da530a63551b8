[package]
name = "shore_mcp"
version = "0.1.0"
edition = "2021"
publish = false

[dependencies]
anyhow = "1"
clap = { version = "4", features = ["derive"] }
dirs = "*"
libc = "0.2"
rmcp = { version = "*", features = ["server", "transport-io", "macros"] }
schemars = "*"
serde = { version = "1", features = ["derive"] }
serde_json = "1"
shore-protocol = "*"
shore-swp-client = "*"
tempfile = "3"
tokio = { version = "1", features = ["full"] }
tracing = "0.1"
tracing-subscriber = { version = "0.3", features = ["env-filter", "fmt"] }
which = "*"
