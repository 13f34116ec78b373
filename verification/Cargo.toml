[package]
name = "jsexec"
version = "0.1.0"
edition = "2021"
publish = false

[dependencies]
uuid = { version = "1", features = ["v4"] }
sha2 = "0.10"
md-5 = "0.10"
regex = "1"
dirs = "5"
which = "6"
serde = { version = "1", features = ["derive"] }
serde_json = "1"
schemars = "0.8"
thiserror = "1"
tokio = { version = "1", features = ["full"] }
tokio-stream = "0.1"
futures = "0.3"
futures-util = "0.3"
async-stream = "0.3"
async-trait = "0.1"
reqwest = { version = "0.12", default-features = false, features = ["stream"] }
tempfile = "3"
tracing = "0.1"
sqlx = { version = "0.8", default-features = false, features = ["sqlite", "runtime-tokio"] }
