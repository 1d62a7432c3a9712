[package]
name = "uctl"
version = "0.1.0"
edition = "2021"
publish = false

[dependencies]
typenum = "1"
generic-array = "0.14"
serde = { version = "1", features = ["derive"] }
thiserror = "1"
bytemuck = "1"
derive_deref = "1"

[dev-dependencies]
serde_json = "1"
