[package]
name = "nftmart_contract"
version = "0.1.0"
edition = "2021"
publish = false

[dependencies]
ink_env = "3.4"
ink_lang = "3.4"
ink_metadata = { version = "3.4", features = ["derive"] }
ink_prelude = "3.4"
ink_primitives = "3.4"
ink_storage = "3.4"
parity-scale-codec = { version = "3", features = ["derive"] }
scale-info = { version = "2", features = ["derive"] }
