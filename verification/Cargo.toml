[package]
name = "token_contracts"
version = "0.1.0"
edition = "2021"
publish = false

[dependencies]
ink_storage = "=3.0.0-rc5"
ink_env = "=3.0.0-rc5"
ink_prelude = "=3.0.0-rc5"
ink_primitives = "=3.0.0-rc5"
ink_lang = "=3.0.0-rc5"
parity-scale-codec = { version = "2", default-features = false, features = ["derive"] }
scale-info = { version = "1", default-features = false, features = ["derive"] }
