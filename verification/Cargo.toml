[package]
name = "ethashcache"
version = "0.1.0"
edition = "2021"
publish = false

[dependencies]
keccak-asm = "=0.1.9"

[dev-dependencies]
tiny-keccak = { version = "=2.0.2", features = ["keccak"] }
