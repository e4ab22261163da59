[package]
name = "embedder"
version = "0.1.0"
edition = "2021"
publish = false

[dependencies]
anyhow = "=1.0.104"
async-openai = { version = "=0.42.1", features = ["chat-completion"] }
candle-core = "=0.3.3"
candle-nn = "=0.3.3"
candle-transformers = "=0.3.3"
# Version pin only: candle-core 0.3.3 needs a half that still targets rand 0.8.
half = "=2.4.1"
serde = { version = "=1.0.229", features = ["derive"] }
serde_json = "=1.0.151"
tokenizers = { version = "=0.23.2", default-features = false, features = ["unstable_wasm"] }
