[package]
name = "refactor_radar"
version = "0.1.0"
edition = "2021"
publish = false

[dependencies]
scip = "*"
protobuf = "*"
protobuf-json-mapping = "*"
tempfile = "*"
serde = { version = "1", features = ["derive"] }
serde_json = "1"
schemars = "*"
rmcp = { version = "*", features = ["server", "macros"] }
tokio = { version = "1", features = ["sync", "rt", "macros"] }
thiserror = "*"
error-location = "*"
async-trait = "*"
