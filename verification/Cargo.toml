[package]
name = "identity_service"
version = "0.1.0"
edition = "2021"
publish = false

[dependencies]
actix-service = "*"
actix-web = "*"
deadpool-postgres = "*"
futures = "*"
log = "*"
