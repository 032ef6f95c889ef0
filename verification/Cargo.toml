[package]
name = "etf_matcher_vector_config_loader"
version = "0.1.0"
edition = "2021"
publish = false

[dependencies]
reqwest = { version = "*", features = ["blocking"] }
toml = "*"
