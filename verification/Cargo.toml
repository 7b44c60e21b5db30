[package]
name = "index_proxy"
version = "0.1.0"
edition = "2021"
publish = false

[dependencies]
exonum = "=1.0.0"
exonum-merkledb = "=1.0.0"
exonum-proto = "=1.0.0"
jni = "=0.14.0"
protobuf = "=2.28.0"
