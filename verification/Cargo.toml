[package]
name = "pmcfg"
version = "0.1.0"
edition = "2021"
publish = false

[dependencies]
bytes = "1"
dirs = "*"
futures = "0.3"
prettydiff = "*"
rusoto_core = { version = "0.48", default-features = false, features = ["rustls"] }
rusoto_credential = "0.48"
rusoto_s3 = { version = "0.48", default-features = false, features = ["rustls"] }
tokio = { version = "1", features = ["macros", "rt-multi-thread"] }
