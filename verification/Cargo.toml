[package]
name = "cosmic_grackle"
version = "0.1.5"
edition = "2021"
publish = false

[dependencies]
anyhow = "1"
block2 = "0.6"
objc2 = "0.6"
objc2-contacts = "0.3"
objc2-foundation = "0.3"
rmcp = { version = "*", features = ["server", "macros", "transport-io"] }
schemars = "1"
serde = { version = "1", features = ["derive"] }
serde_json = "1"
tokio = { version = "1", features = ["macros", "rt-multi-thread", "sync", "io-std"] }
tracing = "0.1"
tracing-subscriber = { version = "0.3", features = ["env-filter"] }
