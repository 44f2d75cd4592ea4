[package]
name = "scriptengine_quickjs"
version = "0.1.0"
edition = "2021"
publish = false

[dependencies]
qjs = "=0.1.2"
structopt = "0.3"
failure = "0.1"
foreign-types = "=0.4.0"
log = "0.4"
env_logger = "*"
