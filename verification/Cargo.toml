[package]
name = "r2d2_redis_cluster"
version = "0.1.0"
edition = "2021"
publish = false

[dependencies]
redis_cluster_rs = "*"
r2d2 = "*"
