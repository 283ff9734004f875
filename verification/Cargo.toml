[package]
name = "gimmick_table"
version = "0.1.0"
edition = "2021"
publish = false

[dependencies]
byteorder = "1"
csv = "1"
encoding_rs = "0.8"
