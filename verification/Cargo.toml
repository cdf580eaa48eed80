[package]
name = "screeps_bot"
version = "0.1.0"
edition = "2021"
publish = false

[dependencies]
screeps-game-api = "*"
wasm-bindgen = "*"
js-sys = "*"
serde = { version = "1", features = ["derive"] }
serde_json = "1"
strum = { version = "*", features = ["derive"] }
thiserror = "*"
anyhow = "1"
log = "0.4"
