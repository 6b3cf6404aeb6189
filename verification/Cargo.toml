[package]
name = "gbr"
version = "0.1.0"
edition = "2021"
publish = false

[dependencies]
byteorder = "1"
thiserror = "1"
flume = "0.11"
log = "0.4"
pretty_env_logger = "0.5"
dotenv = "0.15"
pixels = "0.13"
winit = "0.28"
winit_input_helper = "0.14"
