[package]
name = "vn_extractord_core"
version = "0.1.0"
edition = "2021"
publish = false

[dependencies]
solana-sdk = "1"
futures = "0.3"
tokio = { version = "1", features = ["rt-multi-thread", "macros", "time"] }
clap = { version = "4", features = ["derive"] }
anyhow = "1"
tracing = "0.1"
tracing-subscriber = { version = "0.3", features = ["env-filter"] }
diesel = { version = "2", features = ["postgres"] }
dotenvy = "0.15"
thiserror = "1"
