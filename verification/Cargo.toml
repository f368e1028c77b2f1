[package]
name = "memsecurity"
version = "0.1.0"
edition = "2021"
publish = false

[dependencies]
blake3 = "=1.8.7"
bytes = "=1.12.1"
chacha20poly1305 = { version = "=0.11.0", features = ["reduced-round"] }
ed25519-dalek = "=3.0.0"
memsec = "=0.7.0"
once_cell = "=1.21.4"
rand_chacha = "=0.3.1"
rand_core = { version = "=0.6.4", features = ["getrandom"] }
uuid = { version = "=1.27.0", features = ["v4"] }
x25519-dalek = { version = "=3.0.0", features = ["static_secrets"] }
