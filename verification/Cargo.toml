[package]
name = "gb_postcode"
version = "1.0.0"
edition = "2021"
publish = false

[dependencies]
serde = { version = "1", features = ["derive"] }
thiserror = "2"
postcard = { version = "1", features = ["alloc"] }
