[package]
name = "cargo_leptos"
version = "0.1.0"
edition = "2021"
publish = false

[dependencies]
anyhow = "1"
camino = { version = "1", features = ["serde1"] }
cargo_metadata = "0.15"
clap = { version = "4", features = ["derive"] }
itertools = "0.10"
log = "0.4"
notify = "4"
serde = { version = "1", features = ["derive"] }
serde_json = "1"
tokio = { version = "1", features = ["full"] }
wasm-bindgen-cli-support = "0.2"
