[package]
name = "typora_image_upload"
version = "0.1.0"
edition = "2021"
publish = false

[dependencies]
azure_core = "0.21"
azure_storage = "0.21"
azure_storage_blobs = { version = "0.21", features = ["md5"] }
base32 = "*"
chrono = "0.4"
md5 = "0.7"
reqwest = "0.12"
tokio = { version = "1", features = ["fs", "io-util", "macros", "rt-multi-thread"] }
url = "2"
