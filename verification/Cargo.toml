[package]
name = "plutonic"
version = "0.1.0"
edition = "2021"
publish = false

[dependencies]
apca = "=0.31.0"
tokio = { version = "=1.53.2", features = ["full"] }
tokio-util = "=0.7.19"
futures = "=0.3.34"
log = "=0.4.34"
simple_logger = "=5.2.0"
dotenv = "=0.15.0"
num-decimal = { version = "=0.2.5", default-features = false, features = ["num-v04"] }
