[package]
name = "veracruz"
version = "0.1.0"
edition = "2021"
publish = false

[dependencies]
getrandom = "0.2"
serde_json = "1"
nix = "0.20"
ring = "0.17"
hex = "0.4"
optee-utee = "*"
bincode = "1"
serde = { version = "1", features = ["derive"] }
byteorder = "1"
err-derive = "0.3"
clap = "2"
structopt = "0.3"
log = "0.4"
env_logger = "0.8"
lazy_static = "1"
pinecone = "0.2"
rustls = "0.17"
webpki = "0.21"
