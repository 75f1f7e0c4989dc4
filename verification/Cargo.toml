[package]
name = "sqlgen"
version = "0.1.0"
edition = "2021"
publish = false

[dependencies]
anyhow = "*"
candle-core = "*"
candle-nn = "*"
candle-transformers = "*"
chat-templates = "*"
cxx = "*"
hf-hub = { version = "*", default-features = false, features = ["ureq"] }
serde_json = "*"
tokenizers = { version = "*", default-features = false, features = ["onig"] }
