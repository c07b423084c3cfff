[package]
name = "tdx_vtpm_attester"
version = "0.1.0"
edition = "2021"
publish = false

[dependencies]
az-tdx-vtpm = "=0.5.3"
anyhow = "=1.0.104"
async-trait = "=0.1.92"
log = "=0.4.34"
serde = { version = "*", features = ["derive"] }
serde_json = "=1.0.151"
zerocopy = "=0.7.35"
