[package]
name = "simple_money"
version = "0.1.0"
edition = "2021"
publish = false

[dependencies]
rust_decimal = "1"
rusty-money = "0.4"
thiserror = "1"
