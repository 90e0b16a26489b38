[package]
name = "sg1"
version = "0.1.0"
edition = "2021"
publish = false

[dependencies]
cosmwasm-std = "1.0"
cw-utils = "0.13"
cw2 = "0.13"
cw721 = "0.13"
cw721-base = { version = "0.13", features = ["library"] }
cw20-ics20 = { version = "0.13", features = ["library"] }
schemars = "0.8"
serde = { version = "1.0", features = ["derive"] }
thiserror = "1.0"
