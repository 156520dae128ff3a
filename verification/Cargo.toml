[package]
name = "timeslots"
version = "0.1.0"
edition = "2021"
publish = false

[dependencies]
hyper = "=0.10.16"
rusqlite = "0.31"
rustc-serialize = "=0.3.25"
time = "=0.1.45"
