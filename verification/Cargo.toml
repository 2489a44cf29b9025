[package]
name = "btmesh"
version = "0.1.0"
edition = "2021"
publish = false

[dependencies]
uluru = "=3.1.0"
heapless = "=0.8.0"
rand_core = { version = "=0.6.4", features = ["getrandom"] }
aes = "=0.8.4"
cmac = "=0.7.2"
ccm = "0.5"
p256 = { version = "=0.13.2", features = ["ecdh"] }
serde = { version = "=1.0.229", features = ["derive"] }
postcard = { version = "=1.1.3", features = ["alloc"] }
