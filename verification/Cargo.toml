[package]
name = "spartan_pq"
version = "0.1.0"
edition = "2021"
publish = false

[dependencies]
sha3 = "0.10"
ff = "0.13"
rand_core = { version = "0.6", features = ["getrandom"] }
serde = { version = "1.0", features = ["derive"] }
bincode = "1.3"
