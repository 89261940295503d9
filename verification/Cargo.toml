[package]
name = "mco_http"
version = "0.1.0"
edition = "2021"

[dependencies]
http = "0.2"
