[package]
name = "actix_governor"
version = "0.1.0"
edition = "2021"
publish = false

[dependencies]
governor = "*"
actix-web = { version = "4", default-features = false }
actix-http = { version = "3", default-features = false }

[dev-dependencies]
actix-rt = "2"
