[package]
name = "blog_cache"
version = "0.1.0"
edition = "2021"
publish = false

[dependencies]
regex = "1"
md5 = "0.7"
rand = "0.8"
ip2region = "*"
serde = { version = "1", features = ["derive"] }
serde_json = "1"
serde_yaml = "0.9"
jsonwebtoken = "9"
r2d2 = "0.8"
r2d2_redis = "0.14"
