[package]
name = "brydz_core"
version = "0.1.0"
edition = "2021"
publish = false

[dependencies]
karty = { version = "=0.3.0", features = ["parse"] }
rand = "=0.9.5"
nom = "=8.0.0"
thiserror = "=2.0.21"
