[package]
name = "rays"
version = "0.1.0"
edition = "2021"
publish = false

[dependencies]
clap = "2"
error-chain = "0.12"
impl_ops = "0.1"
lazy_static = "1"
minifb = "0.11"
rand = "0.8"
serde = { version = "1", features = ["derive"] }
serde_yaml = "0.8"
structopt = "0.2"
