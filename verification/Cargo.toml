[package]
name = "coagent"
version = "0.1.0"
edition = "2021"
publish = false

[dependencies]
serde = { version = "1", features = ["derive"] }
serde_json = "1"
sha2 = "0.10"
thiserror = "2"
uuid = { version = "1", features = ["v4"] }
tokio = { version = "1", features = ["rt-multi-thread", "macros", "sync", "process", "io-util", "io-std", "time"] }
async-trait = "0.1"
rusqlite = { version = "*", features = ["bundled"] }
jsonschema = { version = "*", default-features = false }
schemars = "*"
rmcp = { version = "*", features = ["server", "transport-io", "macros"] }
rmcp-macros = "*"
