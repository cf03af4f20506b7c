[package]
name = "tokenizer_ffi"
version = "0.1.0"
edition = "2021"
publish = false

[dependencies]
tokenizers = { version = "=0.23.2", features = ["http"] }

[dev-dependencies]
serde_json = "=1.0.151"
