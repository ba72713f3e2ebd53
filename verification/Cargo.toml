[package]
name = "testnet_orchestrator"
version = "0.1.0"
edition = "2021"
publish = false

[dependencies]
anyhow = "1"
clap = "2"
crossterm = "0.25"
structopt = "0.3"
tokio = { version = "1", features = ["macros", "rt-multi-thread", "sync"] }
tui = "0.19"
