[package]
name = "spl_store"
version = "0.1.0"
edition = "2021"
publish = false

[dependencies]
spl-token = "4.0.0"
spl-associated-token-account = "2.3.0"
borsh = "1"
dotenv = "0.15"
