[package]
name = "d1_see"
version = "0.1.0"
edition = "2021"
publish = false

[dependencies]
dtb-walker = "*"

[dev-dependencies]
sbi-spec = { version = "=0.0.9", features = ["legacy"] }
