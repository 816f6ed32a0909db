[package]
name = "simple_ec2"
version = "0.1.0"
edition = "2021"
publish = false

[dependencies]
clap = "=2.34.0"
prettytable-rs = { version = "=0.10.0", default-features = false }
rusoto_core = "=0.42.0"
rusoto_ec2 = "=0.42.0"
unicode-width = "=0.1.14"
