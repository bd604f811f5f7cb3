[package]
name = "dap-satellite"
version = "0.1.0"
edition = "2021"
publish = false

[dependencies]
frame-support = "=49.0.1"
frame-system = "=49.0.0"
log = "=0.4.35"
sp-runtime = "=49.0.0"

[dev-dependencies]
pallet-balances = "=51.0.2"
parity-scale-codec = "=3.7.5"
scale-info = "=2.11.6"
serde_with = { version = "=3.12.0", default-features = false }
sp-io = "=49.0.0"
