[package]
name = "superscrub"
version = "0.1.0"
edition = "2021"
publish = false

[dependencies]
bon = "3"
clap = { version = "4", features = ["derive"] }
derive_more = { version = "2", features = ["debug"] }
dirs = "6"
egui = "*"
error-stack = "*"
image = { version = "*", default-features = false, features = ["png"] }
notify = "*"
rayon = "1"
serde = { version = "1", features = ["derive"] }
serde_json = "1"
tracing = "0.1"
wherror = "*"
