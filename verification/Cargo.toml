[package]
name = "rzw"
version = "0.1.0"
edition = "2021"

[dependencies]
enum_primitive = "0.1"
