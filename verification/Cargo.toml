[package]
name = "liquid_swap_core"
version = "0.1.0"
edition = "2021"
publish = false

[dependencies]
tokio = { version = "=1.53.2", default-features = false, features = ["sync"] }
elements = "=0.25.3"
rusqlite = { version = "=0.31.0", features = ["bundled"] }
