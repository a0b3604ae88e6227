[package]
name = "reservas"
version = "0.1.0"
edition = "2021"
publish = false

[dependencies]
rand = "0.8"
std-semaphore = "0.1"
actix = "0.13"
actix-web = "4"
