[package]
name = "lewoc"
version = "0.1.0"
edition = "2021"
publish = false

[dependencies]
ascon-aead = "*"
