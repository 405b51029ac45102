[package]
name = "golem_rib"
version = "0.1.0"
edition = "2021"
publish = false

[dependencies]
anyhow = "=1.0.104"
async-trait = "=0.1.92"
uuid = "=1.29.0"
golem-wasm-rpc = { version = "=1.3.1", default-features = false, features = ["stub", "typeinfo"] }
