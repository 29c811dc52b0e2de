[package]
name = "x509_ext_der"
version = "0.1.0"
edition = "2021"
publish = false

[dev-dependencies]
asn1 = "*"
