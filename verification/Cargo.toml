[package]
name = "farmer_house"
version = "0.1.0"
edition = "2021"
publish = false

[dependencies]
anchor-lang = "=0.26.0"
anchor-spl = "=0.26.0"
mpl-token-metadata = { version = "=1.8.5", features = ["no-entrypoint"] }
mpl-trifle = { version = "=0.5.3", features = ["no-entrypoint"] }
solana-program = "=1.14.19"
spl-token = { version = "=3.5.0", features = ["no-entrypoint"] }
spl-associated-token-account = { version = "=1.1.3", features = ["no-entrypoint"] }
mpl-token-auth-rules = { version = ">=1.1, <=1.2.0", features = ["no-entrypoint"] }
