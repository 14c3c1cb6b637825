[package]
name = "ec_keys"
version = "0.1.0"
edition = "2021"
publish = false

[dependencies]
openssl = "0.10"
pem = "3"
foreign-types-shared = "0.1"
