[package]
name = "toukei"
version = "0.1.0"
edition = "2021"
publish = false

[dependencies]
regex = "1"
serde = { version = "1", features = ["derive"] }
serde_json = "1"
encoding_rs_io = "0.1"
walkdir = "2"
rayon = "1"
tokio = { version = "1", features = ["rt", "rt-multi-thread", "sync"] }
futures = "0.3"
num_cpus = "1"
log = "0.4"
plotters = { version = "0.3", default-features = false, features = ["bitmap_backend", "bitmap_encoder"] }
