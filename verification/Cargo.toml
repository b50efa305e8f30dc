[package]
name = "ss3"
version = "0.1.0"
edition = "2021"
publish = false

[dependencies]
globset = "*"
mime_guess = "*"
pathdiff = "*"
md5 = "*"
aws-config = "*"
aws-sdk-s3 = "*"
aws-types = "*"
clap = "*"
tokio = { version = "*", features = ["rt", "macros"] }
tokio-stream = "*"
walkdir = "*"
file-size = "*"
simple-fs = "*"
