[package]
name = "binbundle"
version = "0.1.0"
edition = "2021"
publish = false

[dependencies]
anyhow = "1"
bytesize = "*"
cargo_metadata = "*"
data-encoding = "2"
sha2 = "0.10"
structopt = "0.3"
