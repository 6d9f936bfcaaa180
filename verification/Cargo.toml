[package]
name = "zome_person"
version = "0.1.0"
edition = "2021"
publish = false

[dependencies]
hdk = "=0.5.6"
hdi = "=0.6.6"
holochain_serialized_bytes = "=0.0.56"
serde = { version = "=1.0.219", features = ["derive"] }
