[package]
name = "netlink-packet-netfilter"
version = "0.1.0"
edition = "2021"
publish = false

[dependencies]
netlink-packet-core = "0.8"
derive_more = { version = "2", features = ["from", "is_variant"] }
