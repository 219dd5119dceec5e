[package]
name = "subagent"
version = "0.1.0"
edition = "2021"
publish = false

[dependencies]
async-trait = "0.1"
schemars = "0.8"
serde = { version = "1", features = ["derive"] }
serde_json = "1"
strum_macros = "0.27"
tokio = { version = "1", features = ["macros", "rt", "sync", "time"] }
ts-rs = "11"
