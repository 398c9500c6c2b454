[package]
name = "sps30"
version = "0.1.0"
edition = "2021"
publish = false

[dependencies]
sensirion-hdlc = "*"
embedded-hal = "0.2"
nb = "0.1"
ieee754 = "*"
