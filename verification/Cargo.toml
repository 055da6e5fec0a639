[package]
name = "http_server"
version = "0.1.0"
edition = "2021"
publish = false

[dependencies]
actix-web = "4"
actix-cors = "0.7"
actix-files = "0.6"
