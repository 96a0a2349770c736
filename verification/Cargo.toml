[package]
name = "mars"
version = "0.1.0"
edition = "2021"
publish = false

[dependencies]
bytemuck = { version = "1.14", features = ["derive"] }
num_enum = "0.7"
shank = "0.3"
solana-program = "1.18"
static_assertions = "1.1"
thiserror = "1.0"
