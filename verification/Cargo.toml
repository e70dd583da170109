[package]
name = "msgpack_rpc"
version = "0.1.0"
edition = "2021"
publish = false

[dependencies]
rmp = "=0.8.15"
rmpv = "=1.3.1"
