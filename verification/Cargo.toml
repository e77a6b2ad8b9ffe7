[package]
name = "rapidgzip_cli"
version = "0.1.0"
edition = "2021"
publish = false

[dependencies]
anyhow = "1"
bytecount = "0.6"
clap = "4"
ctrlc = "3"
rapidgzip = "*"
tempfile = "3"
ureq = "3"
url = "2"
