[package]
name = "rustry"
version = "0.1.0"
edition = "2021"
publish = false

[dependencies]
revm = { version = "=43.0.3", default-features = false, features = ["std"] }
serde_json = "=1.0.151"
tiny-keccak = { version = "=2.0.2", features = ["keccak"] }
tempfile = "=3.27.0"
proc-macro2 = "=1.0.107"
quote = "=1.0.47"
syn = { version = "=2.0.119", features = ["full"] }

[dev-dependencies]
hex = "=0.4.3"
