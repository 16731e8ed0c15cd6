[package]
name = "pixel_engine"
version = "0.1.0"
edition = "2021"
publish = false

[dependencies]
aseprite = "*"
configparser = "*"
gl = "*"
image = "*"
log = "*"
notify = "*"
same-file = "*"
serde_json = "*"
simple_logger = "*"

[dev-dependencies]
itertools = "*"
