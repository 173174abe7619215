[package]
name = "pmtiles_loader"
version = "0.1.0"
edition = "2021"
publish = false

[dependencies]
async-trait = "=0.1.92"
bytes = "=1.12.1"
flate2 = "=1.1.10"
galileo-mvt = "=0.2.1"
log = "=0.4.34"
maybe-sync = "=0.1.1"
pmtiles = { version = "=0.15.0", default-features = false, features = ["http-async"] }
