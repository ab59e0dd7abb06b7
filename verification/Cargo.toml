[package]
name = "ormx"
version = "0.1.0"
edition = "2021"
publish = false

[dependencies]
itertools = "0.13"
proc-macro2 = "1"
quote = "1"
syn = { version = "2", features = ["full"] }
futures = "0.3"
sqlx = { version = "0.8", default-features = false, features = ["postgres"] }
