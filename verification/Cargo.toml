[package]
name = "nativephp_tauri"
version = "0.1.0"
edition = "2021"
publish = false

[dependencies]
axum = "0.7"
port_scanner = "0.1"
serde = { version = "1", features = ["derive"] }
serde_json = "1"
tokio = { version = "1", features = ["net", "time", "rt-multi-thread", "macros"] }
