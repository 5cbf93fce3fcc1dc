[package]
name = "tarantool"
version = "0.1.0"
edition = "2021"
publish = false

[dependencies]
va_list = "=0.2.1"
serde = "1"
