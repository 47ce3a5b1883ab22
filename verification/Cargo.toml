[package]
name = "parser_registry"
version = "0.1.0"
edition = "2021"
publish = false

[dependencies]
clap = { version = "=4.6.7", features = ["derive"] }
libloading = "=0.9.0"
stabby = { version = "=72.1.16", features = ["libloading"] }
