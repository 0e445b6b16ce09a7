[package]
name = "idl_to_ts"
version = "0.1.0"
edition = "2021"
publish = false

[dependencies]
heck = "*"
serde_json = "1"
anyhow = "1"
clap = { version = "4", features = ["derive"] }
anchor-lang-idl-spec = "*"
anchor-syn = { version = "0.29.0", features = ["idl-types"] }
