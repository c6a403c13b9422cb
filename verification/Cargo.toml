[package]
name = "gst_inspect"
version = "0.1.0"
edition = "2021"
publish = false

[dependencies]
ansi_term = "0.12"
clap = "4"
gstreamer = "0.20"
