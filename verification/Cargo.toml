[package]
name = "class_parser"
version = "0.1.0"
edition = "2021"
publish = false

[dependencies]
byteorder = "1"
enumflags2 = "0.7"
thiserror = "1"
