[package]
name = "token_vesting"
version = "0.1.0"
edition = "2021"
publish = false

[dependencies]
anchor-lang = "=0.28.0"
anchor-spl = { version = "=0.28.0", default-features = false, features = ["token", "token_2022"] }
itertools = "=0.10.5"
spl-token = { version = "=3.5.0", features = ["no-entrypoint"] }
